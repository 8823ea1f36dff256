[package]
name = "mmx_core"
version = "0.2.0"
edition = "2021"
publish = false

[dependencies]
anyhow = "*"
crc32fast = "*"
indicatif = "*"
mp4 = "*"
serde = { version = "*", features = ["derive"] }
serde_json = "*"
symphonia = "*"
time = { version = "*", features = ["formatting"] }
which = "*"
