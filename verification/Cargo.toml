[package]
name = "kcp_listener"
version = "0.1.0"
edition = "2021"
publish = false

[dependencies]
kcp = "*"
tokio = { version = "1", features = ["net", "sync", "rt", "time", "macros"] }
log = "0.4"
byte_string = "*"
