[package]
name = "kodapa"
version = "0.1.0"
edition = "2021"
publish = false

[dependencies]
chrono = "0.4"
url = "2"
serde = { version = "1", features = ["derive"] }
serde_json = "1"
tokio = { version = "1", features = ["full"] }
hyper = { version = "0.14", features = ["full"] }
hyper-tls = "0.5"
yup-oauth2 = "6"
futures-util = "0.3"
twilight-cache-inmemory = "0.9"
twilight-gateway = "0.9"
twilight-http = "0.9"
twilight-model = "0.9"
