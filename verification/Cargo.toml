[package]
name = "ledit"
version = "0.1.0"
edition = "2021"
publish = false

[dependencies]
async-openai = "=0.28.3"
crossterm = "=0.29.0"
serde_json = "=1.0.154"
sqlx = { version = "=0.7.4", default-features = false, features = ["sqlite", "runtime-tokio"] }
tokio = { version = "=1.54.1", features = ["macros", "rt-multi-thread"] }
whoami = "=1.5.2"
