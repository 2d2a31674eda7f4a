[package]
name = "chip8_emu_backend"
version = "0.1.0"
edition = "2021"
publish = false

[dependencies]
rand = "0.8"
rodio = { version = "0.20", default-features = false }
macroquad = { version = "0.4", default-features = false }
rfd = "0.15"
