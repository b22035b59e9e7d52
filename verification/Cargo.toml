[package]
name = "agentrt-rs"
version = "0.1.0"
edition = "2021"
publish = false

[dependencies]
serde = { version = "1", features = ["derive"] }
serde_json = "1"
chrono = "0.4"
uuid = { version = "1", features = ["v4"] }
urlencoding = "2"
rand = "0.8"
reqwest = { version = "0.12", default-features = false, features = ["json", "blocking", "stream"] }
tokio = { version = "1", features = ["rt-multi-thread", "macros", "time"] }
futures = "0.3"
async-trait = "0.1"
thiserror = "1"
once_cell = "1"
