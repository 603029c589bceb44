[package]
name = "print_guardian"
version = "0.1.0"
edition = "2021"
publish = false

[dependencies]
anyhow = "=1.0.104"
chrono = "=0.4.45"
darknet = "=0.4.0"
env_logger = "=0.11.11"
image = { version = "=0.24.9", default-features = false, features = ["jpeg", "png"] }
imageproc = { version = "0.23", default-features = false }
log = "=0.4.34"
reqwest = { version = "0.12", features = ["blocking", "json", "multipart"] }
serde_json = "=1.0.154"
