[package]
name = "keyreg"
version = "0.1.0"
edition = "2021"
publish = false

[dependencies]
ed25519-dalek = "2"
uuid = { version = "1", features = ["v4"] }
axum = "0.8"
tokio = { version = "1", features = ["rt-multi-thread", "macros", "net"] }
serde = { version = "1", features = ["derive"] }
serde_json = "1"
base64 = "0.22"
sqlx = { version = "0.8", default-features = false, features = ["runtime-tokio", "mysql"] }
