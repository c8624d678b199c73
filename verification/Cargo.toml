[package]
name = "rustpbx"
version = "0.1.0"
edition = "2021"
publish = false

[dependencies]
sha2 = "=0.10.9"
rsipstack = "=0.7.14"
toml_edit = "=0.25.17"
toml = "=1.1.8"
serde = { version = "=1.0.229", features = ["derive"] }
serde_json = "=1.0.154"
anyhow = "=1.0.104"
tokio = { version = "=1.54.1", features = ["rt", "time", "macros", "sync"] }
tokio-util = "=0.7.20"
reqwest = { version = "=0.12.28", default-features = false, features = ["rustls-tls"] }
chrono = "=0.4.45"
tracing = "=0.1.44"
clap = { version = "=4.6.7", features = ["derive"] }
rustrtc = "*"
http = "*"
