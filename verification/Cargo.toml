[package]
name = "nine_slice"
version = "0.1.0"
edition = "2021"
publish = false

[dependencies]
egui = { version = "0.29", default-features = false }
image = { version = "0.25", default-features = false, features = ["png", "jpeg"] }
