[package]
name = "pi_brain"
version = "0.1.0"
edition = "2021"
publish = false

[dependencies]
sha2 = "=0.11.1"
hex = "=0.4.3"
uuid = { version = "=1.29.1", features = ["v4", "serde"] }
getrandom = "=0.4.3"
chrono = { version = "=0.4.45", features = ["serde"] }
pulldown-cmark = { version = "=0.13.6", default-features = false, features = ["html"] }
serde = { version = "=1.0.229", features = ["derive"] }
serde_json = "=1.0.154"
sqlx = { version = "=0.9.0", default-features = false, features = ["runtime-tokio", "sqlite"] }
actix-web = "=4.18.1"
actix-cors = "=0.7.2"
actix-files = "=0.7.3"
tracing = "=0.1.44"
tracing-actix-web = "=0.7.25"
anyhow = "=1.0.104"
async-trait = "=0.1.92"
thiserror = "=2.0.21"
tokio = { version = "=1.54.1", features = ["macros", "rt-multi-thread"] }
