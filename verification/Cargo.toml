[package]
name = "bluetooth_timeout"
version = "0.1.0"
edition = "2021"
publish = false

[dependencies]
chrono = "=0.4.45"
humantime = "=2.4.0"
tokio = { version = "=1.54.1", features = ["rt", "sync", "macros"] }
tracing = "=0.1.44"
tracing-subscriber = "=0.3.23"
pollster = "=0.4.0"
thiserror = "=2.0.21"
eframe = { version = "=0.31.1", default-features = false, features = ["default_fonts", "glow", "x11"] }
windows = { version = "=0.58.0", features = ["Win32_Devices_Bluetooth", "Win32_Foundation"] }
