[package]
name = "lanzaboote"
version = "0.1.0"
edition = "2021"
publish = false

[dependencies]
goblin = "*"
sha2 = "*"
tempfile = "*"
anyhow = "*"
serde = { version = "*", features = ["derive"] }
