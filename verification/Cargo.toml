[package]
name = "parking_ingest"
version = "0.1.0"
edition = "2021"
publish = false

[dependencies]
chrono = "0.4"
sea-orm = { version = "0.12", features = ["sqlx-postgres", "runtime-async-std-rustls", "macros"] }
sea-query = "0.30"
serde = { version = "1", features = ["derive"] }
ureq = { version = "2", features = ["json"] }
dotenvy = "0.15"
futures = "0.3"
