[package]
name = "embedstore"
version = "0.1.0"
edition = "2021"
publish = false

[dependencies]
chromadb = "*"
dirs = "*"
reqwest = { version = "*", default-features = false, features = ["json"] }
serde = { version = "1", features = ["derive"] }
serde_json = "1"
tokio = { version = "1", features = ["full"] }
