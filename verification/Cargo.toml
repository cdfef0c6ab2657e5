[package]
name = "barter_data"
version = "0.1.0"
edition = "2021"
publish = false

[dependencies]
chrono = "0.4"
serde = { version = "1.0", features = ["derive"] }
serde_json = "1.0"
tokio = { version = "1", features = ["time", "macros", "rt"] }
futures = "0.3"
async-trait = "0.1"
