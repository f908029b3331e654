[package]
name = "raft_router"
version = "0.1.0"
edition = "2021"
publish = false

[dependencies]
anyhow = "1"
async-raft = "0.6"
bincode = "1.3"
dashmap = "5"
http = "0.2"
log = "0.4"
prost = "0.12"
serde = { version = "1", features = ["derive"] }
tokio = { version = "1", features = ["rt", "sync"] }
tonic = "0.11"
