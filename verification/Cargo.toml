[package]
name = "pingbot"
version = "0.1.0"
edition = "2021"
publish = false

[dependencies]
ruma = "*"
serde = { version = "*", features = ["derive"] }
serde_json = "*"
tokio = { version = "*", features = ["full"] }
toml = "*"
uuid = { version = "*", features = ["v4"] }
