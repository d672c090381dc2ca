[package]
name = "rusty_cdk"
version = "0.1.0"
edition = "2021"
publish = false

[dependencies]
rand = "=0.9.5"
serde = { version = "=1.0.229", features = ["derive"] }
serde_json = "=1.0.154"
regex = "1"
change-case = "*"
anyhow = "1"
scraper = "*"
reqwest = { version = "*", default-features = false, features = ["blocking", "rustls-tls"] }
tokio = { version = "1", features = ["rt-multi-thread"] }
aws-config = "*"
aws-sdk-cloudcontrol = "*"
