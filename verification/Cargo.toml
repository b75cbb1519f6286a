[package]
name = "nonce_verifier"
version = "0.1.0"
edition = "2021"
publish = false

[dependencies]
anyhow = "*"
axum = "*"
base64 = "*"
chrono = "*"
dotenvy = "*"
ed25519-dalek = { version = "*", features = ["rand_core"] }
rand = "0.8"
reqwest = { version = "*", default-features = false, features = ["json"] }
serde = { version = "*", features = ["derive"] }
serde_json = "*"
thiserror = "*"
tokio = { version = "*", features = ["rt-multi-thread", "macros", "sync", "net", "time"] }
tower = { version = "*", features = ["buffer", "limit"] }
tower-http = { version = "*", features = ["limit", "timeout"] }
tracing = "*"
tracing-subscriber = { version = "*", features = ["env-filter"] }
utoipa = { version = "*", features = ["axum_extras"] }
uuid = { version = "*", features = ["v4"] }
