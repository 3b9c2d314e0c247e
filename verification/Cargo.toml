[package]
name = "rusty_chip8"
version = "0.1.0"
edition = "2021"
publish = false

[dependencies]
fastrand = "2"
clap = { version = "4", features = ["derive"] }
colored = "2"
minifb = "0.27"
