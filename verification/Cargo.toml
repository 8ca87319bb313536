[package]
name = "frame_bridge"
version = "0.1.0"
edition = "2021"
publish = false

[dependencies]
crossbeam = "*"
reqwest = { version = "*", default-features = false, features = ["json"] }
tokio = { version = "*", features = ["rt-multi-thread"] }
serde = { version = "*", features = ["derive"] }
serde_json = "*"
