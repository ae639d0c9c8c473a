[package]
name = "traffic_light_control"
version = "0.1.0"
edition = "2021"
publish = false

[dependencies]
rusqlite = { version = "0.32", features = ["bundled"] }
once_cell = "1"
rand = "0.9"
pyo3 = { version = "0.22", features = ["auto-initialize"] }
egui = "0.31"
eframe = { version = "0.31", default-features = false, features = ["default_fonts", "glow", "x11"] }
rfd = { version = "0.15", default-features = false, features = ["xdg-portal", "async-std"] }
image = { version = "0.25", default-features = false, features = ["png", "jpeg"] }
