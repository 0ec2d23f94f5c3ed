[package]
name = "battlemon_indexer"
version = "0.1.0"
edition = "2021"
publish = false

[dependencies]
serde_json = "*"
base64 = "0.13"
reqwest = { version = "*", default-features = false, features = ["json"] }
tokio = { version = "*", features = ["rt-multi-thread", "macros", "sync"] }
