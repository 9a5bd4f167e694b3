[package]
name = "border_rect"
version = "0.1.0"
edition = "2021"
publish = false

[dependencies]
bevy_math = "*"
bevy_reflect = "*"
