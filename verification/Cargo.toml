[package]
name = "skribo"
version = "0.1.0"
edition = "2021"
publish = false

[dependencies]
euclid = "=0.22.14"
harfbuzz = { version = "=0.8.0", default-features = false, features = ["bundled", "std"] }
