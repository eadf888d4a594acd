[package]
name = "fcore"
version = "0.1.0"
edition = "2021"
publish = false

[dependencies]
base64 = "0.22"
chrono = "0.4"
clickhouse = "*"
rand = "0.8"
serde = { version = "1", features = ["derive"] }
toml = "0.8"
url = "2"
uuid = "1"
