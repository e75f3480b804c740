[package]
name = "ggegui"
version = "0.1.0"
edition = "2021"
publish = false

[dependencies]
egui = "0.22"
ggez = { version = "0.9", default-features = false }
