[package]
name = "dcc_tool"
version = "0.1.0"
edition = "2021"
publish = false

[dependencies]
bytes = "1"
crc = "3"
crossbeam = "0.8"
serde = { version = "1", features = ["derive"] }
tracing = "0.1"
tracing-subscriber = "0.3"
eframe = { version = "0.21", default-features = false, features = ["default_fonts", "glow", "persistence"] }
