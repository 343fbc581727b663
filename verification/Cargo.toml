[package]
name = "macaroon"
version = "0.1.0"
edition = "2021"
publish = false

[dependencies]
ab_glyph = { version = "0.2", default-features = false, features = ["std"] }
anyhow = "1"
auto-launch = "0.5"
base64 = "0.22"
env_logger = { version = "0.11", default-features = false }
image = { version = "0.25", default-features = false, features = ["png", "jpeg"] }
imageproc = { version = "0.25", default-features = false }
log = "0.4"
serde = { version = "1", features = ["derive"] }
serde_json = "1"
tokio = { version = "1", default-features = false, features = ["sync"] }
