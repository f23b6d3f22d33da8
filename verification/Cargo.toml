[package]
name = "smartclip"
version = "0.1.0"
edition = "2021"
publish = false

[dependencies]
sha2 = "0.10"
hostname = "0.4"
serde_json = "1"
serde = { version = "1", features = ["derive"] }
reqwest = { version = "0.12", features = ["json"] }
log = "0.4"
dotenvy = "0.15"
