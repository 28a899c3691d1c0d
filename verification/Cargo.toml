[package]
name = "file_transfer"
version = "0.1.0"
edition = "2021"
publish = false

[dependencies]
serde = { version = "1", features = ["derive"] }
serde_json = "1"
urlencoding = "2"
uuid = { version = "1", features = ["v4"] }
tungstenite = "*"
notify = "6"
reqwest = { version = "0.12", default-features = false, features = ["blocking", "json"] }
tokio = { version = "1", features = ["macros", "rt-multi-thread"] }
opener = "*"
