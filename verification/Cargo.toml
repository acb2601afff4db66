[package]
name = "rhenite"
version = "0.1.0"
edition = "2021"
publish = false

[dependencies]
tokio = { version = "*", features = ["sync", "rt", "rt-multi-thread"] }
tungstenite = "*"
tokio-tungstenite = { version = "*", features = ["native-tls"] }
native-tls = "*"
http = "*"
futures-util = "*"
serde = { version = "*", features = ["derive"] }
