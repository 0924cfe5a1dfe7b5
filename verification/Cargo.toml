[package]
name = "self_writer"
version = "0.1.0"
edition = "2021"
publish = false

[dependencies]
prost = "0.13"
serde = { version = "1", features = ["derive"] }
crc32fast = "1"
