[package]
name = "glass_ui"
version = "0.1.0"
edition = "2021"
publish = false

[dependencies]
cef = "*"
serde = { version = "1", features = ["derive"] }
serde_json = "1"
anyhow = "1"
log = "0.4"
