[package]
name = "regression"
version = "0.1.0"
edition = "2021"
publish = false

[dependencies]
csv = "1"
nalgebra = "*"
plotters = "0.3"
