[package]
name = "fsnav"
version = "0.4.0"
edition = "2021"
publish = false

[dependencies]
anyhow = "1"
crossterm = "0.27"
libc = "0.2"
regex = "1"
serde = { version = "1", features = ["derive"] }
serde_json = "1"
