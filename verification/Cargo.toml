[package]
name = "mastermind"
version = "0.1.0"
edition = "2021"
publish = false

[dependencies]
rand = "=0.8.8"
piston_window = "=0.133.1"
find_folder = "=0.3.0"
