[package]
name = "finance_app"
version = "0.1.0"
edition = "2021"
publish = false

[dependencies]
anyhow = "1"
dotenv = "0.15"
once_cell = "1"
sqlx = { version = "=0.7.4", default-features = false, features = ["mysql", "time", "runtime-tokio"] }
tokio = { version = "1", features = ["rt", "macros"] }
