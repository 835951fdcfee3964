[package]
name = "lamb_daemon"
version = "0.1.0"
edition = "2021"
publish = false

[dependencies]
toml = "0.8"
serde = { version = "1", features = ["derive"] }
serde_json = "1"
libc = "0.2"
