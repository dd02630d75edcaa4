[package]
name = "kafka_to_http"
version = "0.1.0"
edition = "2021"
publish = false

[dependencies]
kafka = { version = "*", default-features = false }
log = "*"
rayon = "*"
reqwest = { version = "*", default-features = false, features = ["blocking"] }
retry = "*"
serde = { version = "*", features = ["derive"] }
serde_yaml = "*"
simple_logger = "*"
