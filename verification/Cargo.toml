[package]
name = "gboyrust"
version = "0.1.0"
edition = "2021"
publish = false

[dependencies]
egui = { version = "=0.27.2", default-features = false }
egui_extras = { version = "=0.27.2", default-features = false }
