[package]
name = "eink"
version = "0.1.0"
edition = "2021"
publish = false

[dependencies]
uuid = { version = "1", features = ["v4"] }
serde = { version = "1", features = ["derive"] }
serde_json = "1"
bincode = "1"
clap = { version = "4", features = ["derive"] }
jsonrpc-lite = "0.6"
anyhow = "1"
log = "0.4"
dirs = "5"
nng = "1"
fast_log = "1.5"
fastdate = "0.1"
