[package]
name = "cobre-io"
version = "0.1.0"
edition = "2021"
publish = false

[dependencies]
arrow = { version = "*", default-features = false }
chrono = { version = "0.4", default-features = false, features = ["std", "clock"] }
csv = "1"
flatbuffers = "*"
parquet = { version = "*", default-features = false, features = ["arrow", "zstd"] }
serde = { version = "1", features = ["derive"] }
serde_json = "1"
