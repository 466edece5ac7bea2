[package]
name = "sqlout"
version = "0.1.0"
edition = "2021"
publish = false

[dependencies]
anyhow = "1"
chrono = "0.4"
clap = { version = "4", features = ["derive"] }
enum-map = "2"
num-traits = "0.2"
rust_xlsxwriter = { version = "=0.99.1", features = ["chrono"] }
serde_json = "1"
sqlx = { version = "=0.8.6", default-features = false, features = ["runtime-tokio", "mysql", "postgres", "chrono", "rust_decimal", "json"] }
tokio = { version = "1", features = ["rt-multi-thread", "macros"] }
url = "2"
