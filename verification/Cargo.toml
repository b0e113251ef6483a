[package]
name = "rabbitmq_http_client"
version = "0.1.0"
edition = "2021"
publish = false

[dependencies]
percent-encoding = "*"
rand = "*"
ring = "*"
rbase64 = "*"
serde = { version = "*", features = ["derive"] }
serde_json = "*"
serde-aux = "*"
reqwest = { version = "*", default-features = false, features = ["blocking", "json", "rustls-tls"] }
