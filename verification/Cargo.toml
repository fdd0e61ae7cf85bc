[package]
name = "gitk-rs"
version = "0.1.0"
edition = "2021"
publish = false

[dependencies]
git2 = { version = "0.20", default-features = false }
regex = "1"
chrono = "0.4"
anyhow = "1"
thiserror = "1"
serde = { version = "1", features = ["derive"] }
serde_json = "1"
tracing = "0.1"
dirs = "5"
sys-info = "0.9"
tokio = { version = "1", features = ["time", "rt"] }

[dev-dependencies]
tempfile = "3"
