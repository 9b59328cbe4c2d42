[package]
name = "pdf_compressor"
version = "0.1.0"
edition = "2021"
publish = false

[dependencies]
lopdf = "*"
flate2 = "1"
tar = "0.4"
reqwest = { version = "0.12", default-features = false, features = ["stream"] }
tokio = { version = "1", features = ["rt", "rt-multi-thread", "macros", "sync", "time"] }
futures-util = "0.3"
