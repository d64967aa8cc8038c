[package]
name = "indexer"
version = "0.1.0"
edition = "2021"
publish = false

[dependencies]
alloy-rpc-client = { version = "=2.5.0", default-features = false, features = ["hyper"] }
alloy-transport = "=2.5.0"
alloy-transport-http = { version = "=2.5.0", default-features = false, features = ["hyper"] }
serde_json = "=1.0.151"
tokio = { version = "=1.53.2", features = ["rt-multi-thread", "sync"] }
url = "=2.5.8"
