[package]
name = "runtime"
version = "0.1.0"
edition = "2021"
publish = false

[dependencies]
regex = "1"
cron = "*"
chrono = "0.4"
serde = { version = "1", features = ["derive"] }
serde_json = "1"
reqwest = { version = "0.12", default-features = false, features = ["json"] }
url = "2"
tokio = { version = "1", features = ["rt", "rt-multi-thread", "sync", "time", "macros", "fs", "process", "net"] }
tokio-tungstenite = "0.21"
futures-util = "0.3"
http = "1"
async-trait = "0.1"
thiserror = "1"
uuid = { version = "1", features = ["v4"] }
