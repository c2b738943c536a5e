[package]
name = "tokio_sqlite"
version = "0.1.0"
edition = "2021"
publish = false

[dependencies]
rusqlite = "*"
tokio = { version = "1", features = ["rt-multi-thread", "sync"] }
