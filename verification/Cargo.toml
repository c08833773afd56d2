[package]
name = "lunar"
version = "0.1.0"
edition = "2021"
publish = false

[dependencies]
ndarray = { version = "0.15", default-features = false, features = ["std"] }
pancurses = "0.17"
