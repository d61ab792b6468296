[package]
name = "odestep"
version = "0.1.0"
edition = "2021"
publish = false

[dependencies]
nalgebra = "*"
