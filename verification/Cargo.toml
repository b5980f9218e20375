[package]
name = "greenstone"
version = "0.1.0"
edition = "2021"
publish = false

[dependencies]
clap = { version = "3.2", features = ["derive"] }
sdl2 = "0.35"
log = "0.4"
pretty_env_logger = "0.4"
