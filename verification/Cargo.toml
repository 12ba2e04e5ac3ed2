[package]
name = "miniclock"
version = "0.1.0"
edition = "2021"
publish = false

[dependencies]
embedded-hal = "0.2"
chrono = "0.4"
sdl2 = "0.35"
