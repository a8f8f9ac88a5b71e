[package]
name = "pomodorolm"
version = "0.1.0"
edition = "2021"
publish = false

[dependencies]
anyhow = "1"
clap = { version = "4", features = ["derive"] }
dirs = "*"
futures = "0.3"
hex_color = "*"
image = { version = "*", default-features = false, features = ["png"] }
rodio = "0.20"
serde = { version = "1", features = ["derive"] }
serde_json = "1"
tokio = { version = "1", features = ["full"] }
tokio-stream = "0.1"
toml = "*"

[dev-dependencies]
tempfile = "3"
