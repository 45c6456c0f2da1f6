[package]
name = "file-crawler"
version = "0.1.0"
edition = "2021"
publish = false

[dependencies]
regex = "1"
rayon = "1"
tokio = { version = "1", features = ["rt-multi-thread", "sync", "fs"] }
anyhow = "1"
