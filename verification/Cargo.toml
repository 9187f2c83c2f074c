[package]
name = "mnist_actor"
version = "0.1.0"
edition = "2021"
publish = false

[dependencies]
burn = { version = "*", default-features = false, features = ["ndarray"] }
