[package]
name = "pingora_mqtt"
version = "0.1.0"
edition = "2021"
publish = false

[dependencies]
async-trait = "0.1"
bytes = "1"
http = "1"
log = "0.4"
tokio = { version = "1", features = ["sync", "rt", "macros", "time"] }
