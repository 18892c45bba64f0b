[package]
name = "pie"
version = "0.1.0"
edition = "2021"
publish = false

[dependencies]
hound = "*"
resampler = "*"
glam = "*"
gl = "*"
image = "*"
tobj = "*"
rapier3d = "*"
