[package]
name = "ailoop"
version = "0.1.0"
edition = "2021"
publish = false

[dependencies]
async-stream = "0.3"
async-trait = "0.1"
convert_case = "0.8"
dotenvy = "0.15"
eventsource-stream = "0.2"
futures = "0.3"
proc-macro-crate = "3"
proc-macro2 = "1"
quote = "1"
reqwest = { version = "0.12", default-features = false, features = ["json", "stream"] }
rmcp = { version = "*", features = ["client", "transport-child-process"] }
serde = { version = "1", features = ["derive"] }
serde_json = "1"
syn = { version = "2", features = ["full"] }
thiserror = "2"
tokio = { version = "1", features = ["full"] }
tokio-util = "0.7"
uuid = { version = "1", features = ["v4"] }
