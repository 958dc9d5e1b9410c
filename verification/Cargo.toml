[package]
name = "aliyun_content_moderation"
version = "0.1.0"
edition = "2021"
publish = false

[dependencies]
base64 = "*"
hmac = "*"
sha1 = "*"
sha2 = "*"
chrono = "*"
uuid = { version = "*", features = ["v4"] }
reqwest = { version = "*", default-features = false }
serde = { version = "*", features = ["derive"] }
serde_json = "*"

[dev-dependencies]
percent-encoding = "*"
