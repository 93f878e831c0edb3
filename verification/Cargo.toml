[package]
name = "binance"
version = "0.1.0"
edition = "2021"
publish = false

[dependencies]
hex = "*"
hmac-sha256 = "*"
serde = { version = "*", features = ["derive"] }
serde_json = "*"
reqwest = { version = "*", default-features = false }
awc = "*"
actix-codec = "*"
actix-rt = "*"
bytes = "*"
futures-util = "*"
local-channel = "*"
log = "*"
