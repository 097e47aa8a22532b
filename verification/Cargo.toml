[package]
name = "zss"
version = "0.1.0"
edition = "2021"
publish = false

[dependencies]
image = "*"
rand = "*"
log = "*"
simplelog = "*"
gl = "*"
x11 = { version = "*", features = ["xlib", "glx"] }
