[package]
name = "length_animation"
version = "0.1.0"
edition = "2021"
publish = false

[dependencies]
stylo_traits = "*"
