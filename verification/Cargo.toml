[package]
name = "s3_simple_artifact_handler"
version = "0.1.0"
edition = "2021"
publish = false

[dependencies]
rusty-s3 = "=0.10.2"
uuid = { version = "=1.29.0", features = ["v4"] }
glob = "=0.3.4"
tar = "=0.4.46"
flate2 = "=1.1.10"
jiff = { version = "=0.2.38", default-features = false, features = ["std"] }
reqwest = { version = "=0.12.28", default-features = false, features = ["blocking", "rustls-tls"] }
clap = { version = "=4.6.7", features = ["derive"] }
serde = { version = "=1.0.229", features = ["derive"] }
toml = "=0.8.23"
env_logger = "=0.11.11"
log = "=0.4.34"
chrono = "=0.4.45"
