[package]
name = "nextcloud_passwords_client"
version = "0.1.0"
edition = "2021"
publish = false

[dependencies]
reqwest = { version = "*", default-features = false, features = ["json"] }
tokio = { version = "*", features = ["rt", "time"] }
serde = { version = "*", features = ["derive"] }
serde_json = "*"
url = "*"
uuid = { version = "*", features = ["v4"] }
