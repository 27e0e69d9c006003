[package]
name = "rmap"
version = "0.1.0"
edition = "2021"
publish = false

[dependencies]
egui = "*"
rfd = "*"
serde = { version = "1", features = ["derive"] }
serde_json = "1"
tracing = "0.1"
