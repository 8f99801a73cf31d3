[package]
name = "report_card"
version = "0.1.0"
edition = "2021"
publish = false

[dependencies]
base64 = "=0.21.7"
genpdf = "=0.2.0"
clap = { version = "=4.6.7", features = ["derive"] }
serde = { version = "=1.0.229", features = ["derive"] }
candid = "=0.10.39"
ic-agent = "=0.49.3"
ic-cdk = "*"
octocrab = "=0.40.0"
tokio = { version = "=1.54.1", features = ["rt", "time"] }
