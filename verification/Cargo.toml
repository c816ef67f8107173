[package]
name = "ohes_core"
version = "0.2.0"
edition = "2021"
publish = false

[dependencies]
hex = "0.4"
xmas-elf = "*"
postcard = { version = "*", features = ["alloc"] }
serde = { version = "*", features = ["derive"] }
