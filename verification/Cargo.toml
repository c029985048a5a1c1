[package]
name = "floresta"
version = "0.1.0"
edition = "2021"
publish = false

[dependencies]
bitcoin = "0.32"
libc = "0.2"
rustreexo = "*"
serde = { version = "1", features = ["derive"] }
serde_json = "1"
