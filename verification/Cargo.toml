[package]
name = "github_stats"
version = "0.1.0"
edition = "2021"
publish = false

[dependencies]
big-bytes = "*"
reqwest = "0.9"
serde_json = "1"
