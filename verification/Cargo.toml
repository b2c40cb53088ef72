[package]
name = "block_archiver"
version = "0.1.0"
edition = "2021"
publish = false

[dependencies]
anyhow = "*"
brotli = "*"
serde = { version = "*", features = ["derive"] }
serde_json = "*"
ureq = "*"
