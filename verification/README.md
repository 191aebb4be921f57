# sentry_ingest

Sentry-compatible error ingestion, verified with Verus.

`src/` is the verified library:

- `payload` — the Sentry event model and the choice of an exception's top frame;
- `grouping` — the fingerprint that groups events into issues, and the
  issue's title, culprit, exception type and user;
- `envelope` — the newline-delimited envelope framing and the search for the
  event item;
- `timestamp` — the instant an event is recorded at;
- `event` — everything one ingestion derives from an event before storage;
- `issues` — the rows and updates of the `sentry_issues` table, and paging;
- `api` — the rules of the issue-management requests;
- `schema` — the `sentry_issues` table, its indexes, and the migration steps;
- `text` — string helpers.

`app/` holds the HTTP handlers (axum), the database access (SeaORM), the
migration runner and the JSON forms of the payload, which call the library
for every decision they make.
