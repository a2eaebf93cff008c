[package]
name = "game_of_life"
version = "0.1.0"
edition = "2021"
publish = false

[dependencies]
crossterm = "0.23"
nalgebra = { version = "*", default-features = false, features = ["std"] }
rand = "0.8"
