[package]
name = "orgcache"
version = "0.1.0"
edition = "2021"
publish = false

[dependencies]
rusqlite = "0.31"
serde_json = "1"
reqwest = { version = "0.11", features = ["json"] }
tokio = { version = "1", features = ["full"] }
warp = "0.3"
