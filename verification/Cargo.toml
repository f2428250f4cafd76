[package]
name = "formula_scanner"
version = "0.1.0"
edition = "2021"
publish = false

[dependencies]
serde = { version = "1", features = ["derive"] }
serde_json = "1"
base64 = "0.21"
chrono = "0.4"
uuid = { version = "1", features = ["v4"] }
anyhow = "1"
async-trait = "0.1"
tokio = { version = "1", features = ["rt", "time", "macros"] }
reqwest = { version = "0.11", default-features = false, features = ["json", "rustls-tls"] }
image = { version = "0.24", default-features = false, features = ["png", "jpeg", "gif"] }
dirs = "5"
