[package]
name = "libg"
version = "0.1.0"
edition = "2021"
publish = false

[dependencies]
serde = { version = "=1.0.229", features = ["derive"] }
serde_json = "=1.0.154"
rmpv = { version = "=1.3.1", features = ["with-serde"] }
tokio = { version = "=1.54.1", features = ["sync", "rt", "process", "net", "io-util", "macros"] }
tokio-util = { version = "=0.7.20", features = ["compat"] }
nvim-rs = { version = "=0.9.2", features = ["use_tokio"] }
agent-client-protocol = "0.9"
async-trait = "=0.1.92"
log = "=0.4.35"
