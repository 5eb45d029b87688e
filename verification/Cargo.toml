[package]
name = "ws_transport"
version = "0.1.0"
edition = "2021"
publish = false

[dependencies]
async-stream = "*"
backon = "*"
bytes = "*"
chrono = "*"
futures-util = { version = "*", features = ["sink"] }
serde = { version = "*", features = ["derive"] }
thiserror = "*"
tokio = { version = "*", features = ["macros", "net", "rt", "time"] }
tokio-tungstenite = "*"
tracing = "*"
