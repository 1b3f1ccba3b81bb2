[package]
name = "report_search"
version = "0.1.0"
edition = "2021"
publish = false

[dependencies]
tantivy = "*"
serde = { version = "1", features = ["derive"] }
serde_json = "1"
exonum_leveldb = "*"
leveldb-sys = "*"
rocket = { version = "0.5", features = ["json"] }
progress = "*"
