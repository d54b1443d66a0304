[package]
name = "multipaste"
version = "0.2.0"
edition = "2021"
publish = false

[dependencies]
serde = { version = "1", features = ["derive"] }
serde_json = "1"
global-hotkey = "*"
enigo = "*"
arboard = { version = "3", default-features = false }
