[package]
name = "cache_aside"
version = "0.1.0"
edition = "2021"
publish = false

[dependencies]
base16ct = "0.2"
serde = { version = "1", features = ["derive"] }
sha2 = "0.10"
tracing = "0.1"
tracing-subscriber = { version = "0.3", features = ["json", "time"] }
tracing-web = "*"
url = "2"
worker = "*"
