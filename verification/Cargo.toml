[package]
name = "blsct"
version = "0.1.0"
edition = "2021"
publish = false

[dependencies]
bincode = "1.3"
hex = "0.4"
libc = "0.2"
rand = "0.9"
serde = { version = "1", features = ["derive"] }
thiserror = "1"
