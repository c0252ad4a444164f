[package]
name = "jsonrpc_gpio"
version = "0.1.0"
edition = "2021"
publish = false

[dependencies]
serde = { version = "1", features = ["derive"] }
serde_json = "1"
jsonrpc-lite = "0.7"
embedded-io = { version = "0.6", features = ["std"] }
heapless = "0.8"
log = "0.4"
