[package]
name = "cyclonedx_bom"
version = "0.1.0"
edition = "2021"
publish = false

[dependencies]
anyhow = "=1.0.104"
base64 = "=0.13.1"
cargo = "0.60"
clap = { version = "=3.2.25", features = ["derive"] }
env_logger = "=0.9.3"
license-exprs = "=1.6.0"
log = "=0.4.34"
thiserror = "=1.0.69"
uuid = { version = "=0.8.2", features = ["v4"] }
validator = "=0.14.0"

[dev-dependencies]
serde_json = "=1.0.154"
xml-rs = "=0.8.29"
yaserde = "=0.7.1"
