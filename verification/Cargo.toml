[package]
name = "repo_compliance"
version = "0.1.0"
edition = "2021"
publish = false

[dependencies]
bytes = "=1.12.1"
http = "=1.5.0"
http-body-util = "=0.1.5"
octocrab = "=0.43.0"
tokio = { version = "=1.53.2", features = ["full"] }
