[package]
name = "guppybot"
version = "0.1.0"
edition = "2021"
publish = false

[dependencies]
base64 = "=0.10.1"
rand = "=0.8.8"
hmac = "=0.12.1"
sha2 = "=0.10.9"
monosodium = "=0.1.0-pre.1"
