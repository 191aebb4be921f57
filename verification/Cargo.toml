[package]
name = "sentry_ingest"
version = "0.1.0"
edition = "2021"
publish = false

[dependencies]
serde = { version = "1", features = ["derive"] }
serde_json = "1"
sha256 = { version = "1", default-features = false }
chrono = { version = "0.4", default-features = false, features = ["clock", "std"] }
svix-ksuid = "0.8"
axum = "0.8"
tokio = { version = "1", features = ["macros", "rt"] }
sea-orm = { version = "1", default-features = false, features = ["macros", "with-json"] }
sea-orm-migration = { version = "1", default-features = false }
async-trait = "0.1"
log = "0.4"
