[package]
name = "luv"
version = "0.1.0"
edition = "2021"
publish = false

[dependencies]
srgb = "=0.1.4"
approx = "=0.5.1"
