[package]
name = "dbcore"
version = "0.1.0"
edition = "2021"
publish = false

[dependencies]
hex = "=0.4.3"
dirs = "=7.0.0"
serde = { version = "=1.0.229", features = ["derive"] }
serde_json = "=1.0.151"
sqlx = { version = "=0.8.6", features = ["runtime-tokio", "sqlite", "postgres", "uuid", "chrono"] }
tokio = { version = "=1.53.2", features = ["rt-multi-thread", "macros", "net", "io-util", "sync", "time"] }
redis = { version = "=1.7.1", features = ["tokio-comp"] }
reqwest = { version = "=0.13.5", default-features = false }
chrono = "=0.4.45"
uuid = { version = "=1.27.0", features = ["v4"] }
async-trait = "=0.1.92"
async-ssh2-lite = { version = "=0.5.0", features = ["tokio"] }
