[package]
name = "takure"
version = "0.1.0"
edition = "2021"
publish = false

[dependencies]
anyhow = "1"
confy = "*"
crochet = "*"
log = "0.4"
serde = { version = "1", features = ["derive"] }
serde_json = "1"
ureq = { version = "2", features = ["json"] }
