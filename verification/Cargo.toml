[package]
name = "budget"
version = "0.1.0"
edition = "2021"
publish = false

[dependencies]
chrono = "0.4"
rust_decimal = "1"
rust-argon2 = "1"
serde = { version = "1", features = ["derive"] }
anyhow = "1"
async-trait = "0.1"
axum = "0.5"
dotenv = "0.15"
sea-orm = { version = "0.9", default-features = false, features = ["macros", "with-chrono", "with-rust_decimal", "sqlx-postgres", "runtime-tokio-rustls"] }
sea-orm-migration = { version = "0.9", default-features = false, features = ["sqlx-postgres", "runtime-tokio-rustls"] }
sea-query = "0.26"
tera = { version = "1", default-features = false }
tokio = { version = "1", features = ["full"] }
tower = "0.4"
tower-cookies = "0.7"
tower-http = { version = "0.3", features = ["fs"] }
tracing-subscriber = "0.3"
