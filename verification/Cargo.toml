[package]
name = "barter_data"
version = "0.1.0"
edition = "2021"
publish = false

[dependencies]
barter-integration = "0.5"
url = "2"
serde = { version = "1", features = ["derive"] }
tokio = { version = "1", features = ["time"] }
