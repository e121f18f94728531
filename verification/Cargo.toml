[package]
name = "shaded_pass"
version = "0.1.0"
edition = "2021"
publish = false

[dependencies]
cgmath = "*"
gfx = "*"
specs = { version = "*", default-features = false }
