[package]
name = "atomic-swap"
version = "0.1.0"
edition = "2021"
publish = false

[dependencies]
hex = "=0.3.2"
sha2 = "=0.8.2"
serde = { version = "1", features = ["derive"] }
snafu = "0.5"
