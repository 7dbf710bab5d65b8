[package]
name = "smart_channel"
version = "0.1.0"
edition = "2021"
publish = false

[dependencies]
crossbeam = "0.8"
web-time = "1"
serde = { version = "1", features = ["derive"] }
egui = "*"
egui_plot = "*"
