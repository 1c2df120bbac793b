[package]
name = "fenboard"
version = "0.1.0"
edition = "2021"
publish = false

[dependencies]
term_grid = "0.1"
clap = { version = "4", features = ["derive"] }
piston = "*"
piston2d-graphics = "*"
piston2d-opengl_graphics = "*"
pistoncore-glutin_window = "*"
