use sentry_ingest::schema::{
    create_last_seen_idx, create_org_fingerprint_unique_idx, create_org_status_idx,
    create_sentry_issues_table, migration_down, migration_up, ColumnDefault, ColumnType, SchemaStep,
};

#[test]
fn table_columns() {
    let t = create_sentry_issues_table();
    assert_eq!(t.name, "sentry_issues");
    assert!(t.if_not_exists);
    let names: Vec<&str> = t.columns.iter().map(|c| c.name.as_str()).collect();
    assert_eq!(
        names,
        vec![
            "id", "org_id", "fingerprint", "status", "title", "culprit", "exception_type",
            "platform", "release", "environment", "times_seen", "users_seen", "first_seen",
            "last_seen", "last_event_id", "assigned_to", "created_at", "updated_at",
        ]
    );
    assert_eq!(t.columns[0].column_type, ColumnType::Char(27));
    assert!(t.columns[0].primary_key);
    assert_eq!(t.columns[2].column_type, ColumnType::Char(64));
    assert!(matches!(&t.columns[3].default, Some(ColumnDefault::Text(d)) if d == "open"));
    assert_eq!(t.columns[4].column_type, ColumnType::Varchar(500));
    assert!(t.columns[7].nullable);
    assert!(!t.columns[1].nullable);
    assert!(matches!(t.columns[10].default, Some(ColumnDefault::Integer(1))));
    assert!(matches!(t.columns[11].default, Some(ColumnDefault::Integer(0))));
    assert_eq!(t.columns[14].column_type, ColumnType::Varchar(36));
}

#[test]
fn indexes() {
    let i = create_org_fingerprint_unique_idx();
    assert_eq!(i.name, "sentry_issues_org_fingerprint_unique");
    assert_eq!(i.columns, vec!["org_id".to_string(), "fingerprint".to_string()]);
    assert!(i.unique);
    let i = create_org_status_idx();
    assert_eq!(i.columns, vec!["org_id".to_string(), "status".to_string()]);
    assert!(!i.unique);
    let i = create_last_seen_idx();
    assert_eq!(i.name, "sentry_issues_last_seen_idx");
    assert_eq!(i.columns, vec!["last_seen".to_string()]);
}

#[test]
fn down_undoes_up_in_reverse() {
    let up = migration_up();
    let down = migration_down();
    assert_eq!(up.len(), down.len());
    for (k, d) in down.iter().enumerate() {
        match (&up[up.len() - 1 - k], d) {
            (SchemaStep::CreateTable(t), SchemaStep::DropTable { name }) => assert_eq!(&t.name, name),
            (SchemaStep::CreateIndex(i), SchemaStep::DropIndex { name, table }) => {
                assert_eq!(&i.name, name);
                assert_eq!(&i.table, table);
            }
            _ => panic!("step {} does not undo its counterpart", k),
        }
    }
}
