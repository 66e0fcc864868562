[package]
name = "spinning_top"
version = "0.1.0"
edition = "2021"
publish = false

[dependencies]
chrono = { version = "0.4", default-features = false, features = ["clock"] }
concurrent-queue = "2"
derive_builder = "*"
derive-getters = "*"
derive-new = "*"
derive_setters = "*"
egui = "0.26"
egui_glium = { version = "0.26", default-features = false }
glium = "0.34"
nalgebra = "0.32"
winit = "0.29"
