[package]
name = "tower_abci"
version = "0.1.0"
edition = "2021"
publish = false

[dependencies]
bytes = "1"
prost = "0.11"
tendermint = "0.32"
tendermint-proto = "0.32"
tokio = { version = "1", features = ["full"] }
tokio-util = { version = "0.7", features = ["codec"] }
tokio-stream = "0.1"
tower = { version = "0.4", features = ["util", "buffer"] }
futures = "0.3"
pin-project = "1"
tracing = "0.1"
