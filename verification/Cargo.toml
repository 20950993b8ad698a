[package]
name = "spaceship"
version = "0.1.0"
edition = "2021"
publish = false

[dependencies]
anyhow = "=1.0.104"
proc-macro2 = "=1.0.107"
quote = "1"
rand = "=0.8.8"
serde = { version = "=1.0.229", features = ["derive"] }
syn = "=2.0.119"
