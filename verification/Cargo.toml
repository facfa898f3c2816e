[package]
name = "termsvg"
version = "0.1.0"
edition = "2021"
publish = false

[dependencies]
avt = "*"
imgref = "*"
resvg = "*"
rgb = "*"
tiny-skia = "*"
usvg = "*"
