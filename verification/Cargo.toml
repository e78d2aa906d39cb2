[package]
name = "aria2_rs_yet"
version = "0.1.0"
edition = "2021"
publish = false

[dependencies]
futures-util = { version = "*", default-features = false, features = ["sink", "std"] }
serde = { version = "1", features = ["derive"] }
serde_json = "1"
serde_with = "*"
thiserror = "*"
tokio = { version = "1", features = ["rt", "macros", "sync", "time", "net"] }
tokio-tungstenite = "*"
tracing = "*"
