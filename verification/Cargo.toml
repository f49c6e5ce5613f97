[package]
name = "snap_grid"
version = "0.1.0"
edition = "2021"
publish = false

[dependencies]
egui = { version = "*", default-features = false, features = ["serde"] }
serde = { version = "1", features = ["derive"] }
