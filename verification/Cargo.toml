[package]
name = "discord_core"
version = "0.1.0"
edition = "2021"
publish = false

[dependencies]
chrono = "0.4"
aes-gcm = "0.10"
chacha20poly1305 = "0.10"
tokio = { version = "1", features = ["rt", "sync", "time"] }
