[package]
name = "rust_opengl"
version = "0.1.0"
edition = "2021"
publish = false

[dependencies]
rand = "0.8"
nalgebra-glm = "0.15"
glium = "0.30"
winit = "0.25"
image = "0.23"
egui = "0.14"
egui_glium = "0.14"
russimp = "1"
