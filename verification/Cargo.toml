[package]
name = "ggez_core"
version = "0.1.0"
edition = "2021"
publish = false

[dependencies]
rodio = { version = "=0.22.2", default-features = false, features = ["wav"] }
winit = "=0.30.13"
gilrs = "=0.11.2"
