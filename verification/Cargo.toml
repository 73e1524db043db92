[package]
name = "thought-train"
version = "0.1.0"
edition = "2021"
publish = false

[dependencies]
tokio = { version = "1", features = ["rt"] }
rusqlite = "0.32"
dirs = "5"
candle-core = "0.8"
candle-nn = "0.8"
candle-transformers = "0.8"
hf-hub = { version = "0.3", default-features = false, features = ["online"] }
tokenizers = { version = "0.20", default-features = false, features = ["onig"] }
serde_json = "1"
image = { version = "0.25", default-features = false, features = ["png"] }
