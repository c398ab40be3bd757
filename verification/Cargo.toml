[package]
name = "fxabot"
version = "0.1.0"
edition = "2021"
publish = false

[dependencies]
futures = "0.1"
hmac-sha1 = "*"
hyper = "0.11"
log = "0.3"
pretty_env_logger = "0.1"
serde = "1"
serde_derive = "1"
serde_json = "1"
tokio-core = "0.1"
toml = "0.4"
