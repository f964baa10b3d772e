[package]
name = "arbitrary_wrappers"
version = "0.1.0"
edition = "2021"
publish = false

[dependencies]
arbitrary = "=1.5.0"
rand_chacha = "=0.3.1"
serde = { version = "=1.0.229", features = ["derive"] }
