[package]
name = "taskcore"
version = "0.1.0"
edition = "2021"
publish = false

[dependencies]
argon2 = { version = "=0.5.3", features = ["std"] }
jsonwebtoken = "=9.3.1"
serde_json = "=1.0.151"
uuid = { version = "=1.27.0", features = ["v4"] }
chrono = "=0.4.45"
