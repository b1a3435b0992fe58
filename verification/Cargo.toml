[package]
name = "agrosim"
version = "0.1.0"
edition = "2021"
publish = false

[dependencies]
rand = "0.8"
chrono = "0.4"
csv = "1"
clap = { version = "4", features = ["derive"] }
serde = { version = "1", features = ["derive"] }
libc = "0.2"
