[package]
name = "task_board"
version = "0.1.0"
edition = "2021"
publish = false

[dependencies]
chrono = "0.4"
eframe = "0.16"
serde = { version = "1", features = ["derive"] }
serde_json = "1"
