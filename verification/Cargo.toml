[package]
name = "status_effects"
version = "0.1.0"
edition = "2021"
publish = false

[dependencies]
log = "*"
nalgebra = "*"
ncollide2d = "*"
specs = "*"
