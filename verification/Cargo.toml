[package]
name = "chip8_emulator"
version = "0.1.0"
edition = "2021"
publish = false

[dependencies]
rand = "0.8"
structopt = "0.3"
cursive = { version = "0.20", default-features = false, features = ["crossterm-backend"] }
raylib = "3.7"
