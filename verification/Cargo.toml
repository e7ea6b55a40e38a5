[package]
name = "ball_filter"
version = "0.1.0"
edition = "2021"
publish = false

[dependencies]
nalgebra = { version = "0.32", default-features = false, features = ["std"] }
