[package]
name = "utilities"
version = "0.1.0"
edition = "2021"
publish = false

[dependencies]
serde = { version = "1", features = ["derive"] }
eframe = "0.30"
egui_plot = "0.30"
