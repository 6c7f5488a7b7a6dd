[package]
name = "ogn_client"
version = "0.1.0"
edition = "2021"
publish = false

[dependencies]
chrono = { version = "0.4", default-features = false, features = ["now"] }
log = "0.4"
queues = "1"
regex = "1"
serde_json = "1"
simplelog = "0.12"
