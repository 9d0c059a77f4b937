[package]
name = "beam_time"
version = "0.1.0"
edition = "2021"
publish = false

[dependencies]
eframe = { version = "0.29", default-features = false, features = ["glow", "persistence", "x11"] }
egui = { version = "0.29", default-features = false }
serde = { version = "1", features = ["derive"] }
