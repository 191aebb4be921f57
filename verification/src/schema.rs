//! The schema of the `sentry_issues` table and the migration that creates and
//! drops it.

use vstd::prelude::*;
use vstd::string::*;

use crate::text::texts;

verus! {

/// The name of the unique index on (org_id, fingerprint).
pub const SENTRY_ISSUES_ORG_FP_UNIQUE: &'static str = "sentry_issues_org_fingerprint_unique";

/// The name of the index on (org_id, status).
pub const SENTRY_ISSUES_ORG_STATUS_IDX: &'static str = "sentry_issues_org_status_idx";

/// The name of the index on last_seen.
pub const SENTRY_ISSUES_LAST_SEEN_IDX: &'static str = "sentry_issues_last_seen_idx";

/// The SQL type of a column.
#[derive(Debug, Clone, Copy, PartialEq, Eq)]
pub enum ColumnType {
    /// Fixed-length text of this many characters.
    Char(u32),
    /// Text of at most this many characters.
    Varchar(u32),
    /// A 64-bit integer.
    BigInteger,
}

/// The default value of a column.
#[derive(Debug, Clone)]
pub enum ColumnDefault {
    Text(String),
    Integer(i64),
}

/// One column of a table.
#[derive(Debug, Clone)]
pub struct ColumnSpec {
    pub name: String,
    pub column_type: ColumnType,
    pub nullable: bool,
    pub primary_key: bool,
    pub default: Option<ColumnDefault>,
}

/// A table to create (only if it does not exist yet).
#[derive(Debug, Clone)]
pub struct TableSpec {
    pub name: String,
    pub if_not_exists: bool,
    pub columns: Vec<ColumnSpec>,
}

/// An index to create (only if it does not exist yet).
#[derive(Debug, Clone)]
pub struct IndexSpec {
    pub name: String,
    pub table: String,
    pub columns: Vec<String>,
    pub unique: bool,
    pub if_not_exists: bool,
}

/// One step of a migration.
#[derive(Debug, Clone)]
pub enum SchemaStep {
    CreateTable(TableSpec),
    CreateIndex(IndexSpec),
    DropIndex { name: String, table: String },
    DropTable { name: String },
}

/// A column with the given name, type, nullability, key and default (a text
/// default, an integer default, or none).
pub open spec fn column_is(
    c: ColumnSpec,
    name: Seq<char>,
    ty: ColumnType,
    nullable: bool,
    primary_key: bool,
    text_default: Option<Seq<char>>,
    int_default: Option<i64>,
) -> bool {
    &&& c.name@ == name
    &&& c.column_type == ty
    &&& c.nullable == nullable
    &&& c.primary_key == primary_key
    &&& match c.default {
        Some(ColumnDefault::Text(t)) => text_default == Some(t@) && int_default is None,
        Some(ColumnDefault::Integer(i)) => int_default == Some(i) && text_default is None,
        None => text_default is None && int_default is None,
    }
}

/// The columns of the `sentry_issues` table.
pub open spec fn is_sentry_issues_columns(cs: Seq<ColumnSpec>) -> bool {
    &&& cs.len() == 18
    &&& column_is(cs[0], "id"@, ColumnType::Char(27), false, true, None, None)
    &&& column_is(cs[1], "org_id"@, ColumnType::Varchar(128), false, false, None, None)
    &&& column_is(cs[2], "fingerprint"@, ColumnType::Char(64), false, false, None, None)
    &&& column_is(cs[3], "status"@, ColumnType::Varchar(20), false, false, Some("open"@), None)
    &&& column_is(cs[4], "title"@, ColumnType::Varchar(500), false, false, Some(""@), None)
    &&& column_is(cs[5], "culprit"@, ColumnType::Varchar(500), false, false, Some(""@), None)
    &&& column_is(
        cs[6],
        "exception_type"@,
        ColumnType::Varchar(256),
        false,
        false,
        Some(""@),
        None,
    )
    &&& column_is(cs[7], "platform"@, ColumnType::Varchar(64), true, false, None, None)
    &&& column_is(cs[8], "release"@, ColumnType::Varchar(256), true, false, None, None)
    &&& column_is(cs[9], "environment"@, ColumnType::Varchar(128), true, false, None, None)
    &&& column_is(cs[10], "times_seen"@, ColumnType::BigInteger, false, false, None, Some(1))
    &&& column_is(cs[11], "users_seen"@, ColumnType::BigInteger, false, false, None, Some(0))
    &&& column_is(cs[12], "first_seen"@, ColumnType::BigInteger, false, false, None, None)
    &&& column_is(cs[13], "last_seen"@, ColumnType::BigInteger, false, false, None, None)
    &&& column_is(
        cs[14],
        "last_event_id"@,
        ColumnType::Varchar(36),
        false,
        false,
        Some(""@),
        None,
    )
    &&& column_is(cs[15], "assigned_to"@, ColumnType::Varchar(256), true, false, None, None)
    &&& column_is(cs[16], "created_at"@, ColumnType::BigInteger, false, false, None, None)
    &&& column_is(cs[17], "updated_at"@, ColumnType::BigInteger, false, false, None, None)
}

/// The `sentry_issues` table.
pub open spec fn is_sentry_issues_table(t: TableSpec) -> bool {
    &&& t.name@ == "sentry_issues"@
    &&& t.if_not_exists
    &&& is_sentry_issues_columns(t.columns@)
}

/// An index of the `sentry_issues` table, created only if it does not exist.
pub open spec fn index_is(i: IndexSpec, name: Seq<char>, columns: Seq<Seq<char>>, unique: bool) -> bool {
    &&& i.name@ == name
    &&& i.table@ == "sentry_issues"@
    &&& texts(i.columns@) == columns
    &&& i.unique == unique
    &&& i.if_not_exists
}

fn column(
    name: &str,
    column_type: ColumnType,
    nullable: bool,
    primary_key: bool,
    default: Option<ColumnDefault>,
) -> (r: ColumnSpec)
    ensures
        r.name@ == name@,
        r.column_type == column_type,
        r.nullable == nullable,
        r.primary_key == primary_key,
        r.default == default,
{
    ColumnSpec { name: String::from_str(name), column_type, nullable, primary_key, default }
}

fn text_default(t: &str) -> (r: Option<ColumnDefault>)
    ensures
        r matches Some(ColumnDefault::Text(s)) && s@ == t@,
{
    Some(ColumnDefault::Text(String::from_str(t)))
}

/// The `sentry_issues` table: issues keyed by a KSUID, with per-org
/// fingerprint, status, description, counters and timestamps.
pub fn create_sentry_issues_table() -> (r: TableSpec)
    ensures
        is_sentry_issues_table(r),
{
    let mut columns: Vec<ColumnSpec> = Vec::new();
    columns.push(column("id", ColumnType::Char(27), false, true, None));
    columns.push(column("org_id", ColumnType::Varchar(128), false, false, None));
    columns.push(column("fingerprint", ColumnType::Char(64), false, false, None));
    columns.push(column("status", ColumnType::Varchar(20), false, false, text_default("open")));
    columns.push(column("title", ColumnType::Varchar(500), false, false, text_default("")));
    columns.push(column("culprit", ColumnType::Varchar(500), false, false, text_default("")));
    columns.push(
        column("exception_type", ColumnType::Varchar(256), false, false, text_default("")),
    );
    columns.push(column("platform", ColumnType::Varchar(64), true, false, None));
    columns.push(column("release", ColumnType::Varchar(256), true, false, None));
    columns.push(column("environment", ColumnType::Varchar(128), true, false, None));
    columns.push(
        column("times_seen", ColumnType::BigInteger, false, false, Some(ColumnDefault::Integer(1))),
    );
    columns.push(
        column("users_seen", ColumnType::BigInteger, false, false, Some(ColumnDefault::Integer(0))),
    );
    columns.push(column("first_seen", ColumnType::BigInteger, false, false, None));
    columns.push(column("last_seen", ColumnType::BigInteger, false, false, None));
    columns.push(
        column("last_event_id", ColumnType::Varchar(36), false, false, text_default("")),
    );
    columns.push(column("assigned_to", ColumnType::Varchar(256), true, false, None));
    columns.push(column("created_at", ColumnType::BigInteger, false, false, None));
    columns.push(column("updated_at", ColumnType::BigInteger, false, false, None));
    TableSpec { name: String::from_str("sentry_issues"), if_not_exists: true, columns }
}

fn index(name: &str, columns: Vec<String>, unique: bool) -> (r: IndexSpec)
    ensures
        r.name@ == name@,
        r.table@ == "sentry_issues"@,
        r.columns == columns,
        r.unique == unique,
        r.if_not_exists,
{
    IndexSpec {
        name: String::from_str(name),
        table: String::from_str("sentry_issues"),
        columns,
        unique,
        if_not_exists: true,
    }
}

/// The unique index on (org_id, fingerprint): one issue per fingerprint and org.
pub fn create_org_fingerprint_unique_idx() -> (r: IndexSpec)
    ensures
        index_is(r, SENTRY_ISSUES_ORG_FP_UNIQUE@, seq!["org_id"@, "fingerprint"@], true),
{
    let mut columns: Vec<String> = Vec::new();
    columns.push(String::from_str("org_id"));
    columns.push(String::from_str("fingerprint"));
    let r = index(SENTRY_ISSUES_ORG_FP_UNIQUE, columns, true);
    assert(texts(r.columns@) =~= seq!["org_id"@, "fingerprint"@]);
    r
}

/// The index on (org_id, status).
pub fn create_org_status_idx() -> (r: IndexSpec)
    ensures
        index_is(r, SENTRY_ISSUES_ORG_STATUS_IDX@, seq!["org_id"@, "status"@], false),
{
    let mut columns: Vec<String> = Vec::new();
    columns.push(String::from_str("org_id"));
    columns.push(String::from_str("status"));
    let r = index(SENTRY_ISSUES_ORG_STATUS_IDX, columns, false);
    assert(texts(r.columns@) =~= seq!["org_id"@, "status"@]);
    r
}

/// The index on last_seen.
pub fn create_last_seen_idx() -> (r: IndexSpec)
    ensures
        index_is(r, SENTRY_ISSUES_LAST_SEEN_IDX@, seq!["last_seen"@], false),
{
    let mut columns: Vec<String> = Vec::new();
    columns.push(String::from_str("last_seen"));
    let r = index(SENTRY_ISSUES_LAST_SEEN_IDX, columns, false);
    assert(texts(r.columns@) =~= seq!["last_seen"@]);
    r
}

/// The steps that bring the schema up: the table, then its three indexes.
pub open spec fn is_migration_up(steps: Seq<SchemaStep>) -> bool {
    &&& steps.len() == 4
    &&& steps[0] matches SchemaStep::CreateTable(t) && is_sentry_issues_table(t)
    &&& steps[1] matches SchemaStep::CreateIndex(i) && index_is(
        i,
        SENTRY_ISSUES_ORG_FP_UNIQUE@,
        seq!["org_id"@, "fingerprint"@],
        true,
    )
    &&& steps[2] matches SchemaStep::CreateIndex(i) && index_is(
        i,
        SENTRY_ISSUES_ORG_STATUS_IDX@,
        seq!["org_id"@, "status"@],
        false,
    )
    &&& steps[3] matches SchemaStep::CreateIndex(i) && index_is(
        i,
        SENTRY_ISSUES_LAST_SEEN_IDX@,
        seq!["last_seen"@],
        false,
    )
}

/// A drop of the named index of the `sentry_issues` table.
pub open spec fn drops_index(s: SchemaStep, name: Seq<char>) -> bool {
    s matches SchemaStep::DropIndex { name: n, table: t } && n@ == name && t@ == "sentry_issues"@
}

/// The steps that take the schema down: the three indexes, newest first, then the table.
pub open spec fn is_migration_down(steps: Seq<SchemaStep>) -> bool {
    &&& steps.len() == 4
    &&& drops_index(steps[0], SENTRY_ISSUES_LAST_SEEN_IDX@)
    &&& drops_index(steps[1], SENTRY_ISSUES_ORG_STATUS_IDX@)
    &&& drops_index(steps[2], SENTRY_ISSUES_ORG_FP_UNIQUE@)
    &&& steps[3] matches SchemaStep::DropTable { name } && name@ == "sentry_issues"@
}

/// The steps of the migration's `up`.
pub fn migration_up() -> (r: Vec<SchemaStep>)
    ensures
        is_migration_up(r@),
{
    let mut steps: Vec<SchemaStep> = Vec::new();
    steps.push(SchemaStep::CreateTable(create_sentry_issues_table()));
    steps.push(SchemaStep::CreateIndex(create_org_fingerprint_unique_idx()));
    steps.push(SchemaStep::CreateIndex(create_org_status_idx()));
    steps.push(SchemaStep::CreateIndex(create_last_seen_idx()));
    steps
}

fn drop_index(name: &str) -> (r: SchemaStep)
    ensures
        drops_index(r, name@),
{
    SchemaStep::DropIndex { name: String::from_str(name), table: String::from_str("sentry_issues") }
}

/// The steps of the migration's `down`.
pub fn migration_down() -> (r: Vec<SchemaStep>)
    ensures
        is_migration_down(r@),
{
    let mut steps: Vec<SchemaStep> = Vec::new();
    steps.push(drop_index(SENTRY_ISSUES_LAST_SEEN_IDX));
    steps.push(drop_index(SENTRY_ISSUES_ORG_STATUS_IDX));
    steps.push(drop_index(SENTRY_ISSUES_ORG_FP_UNIQUE));
    steps.push(SchemaStep::DropTable { name: String::from_str("sentry_issues") });
    steps
}

/// A step that undoes another: dropping the table a step created, or the
/// index (of the same table) a step created.
pub open spec fn undoes(down: SchemaStep, up: SchemaStep) -> bool {
    match up {
        SchemaStep::CreateTable(t) => down matches SchemaStep::DropTable { name } && name@
            == t.name@,
        SchemaStep::CreateIndex(i) => down matches SchemaStep::DropIndex { name, table } && name@
            == i.name@ && table@ == i.table@,
        _ => false,
    }
}

/// The migration's `down` undoes its `up`, step by step in reverse order:
/// every index is dropped before the table it belongs to.
pub proof fn lemma_down_undoes_up(up: Seq<SchemaStep>, down: Seq<SchemaStep>)
    requires
        is_migration_up(up),
        is_migration_down(down),
    ensures
        down.len() == up.len(),
        forall|k: int| 0 <= k < down.len() ==> undoes(#[trigger] down[k], up[up.len() - 1 - k]),
{
    assert forall|k: int| 0 <= k < down.len() implies undoes(
        #[trigger] down[k],
        up[up.len() - 1 - k],
    ) by {
        if k == 0 {
        } else if k == 1 {
        } else if k == 2 {
        } else {
        }
    }
}

} // verus!
