[package]
name = "autoclicker"
version = "0.1.0"
edition = "2021"
publish = false

[dependencies]
eframe = { version = "=0.22.0", default-features = false, features = ["glow", "default_fonts"] }
device_query = "=1.0.0"
inputbot = "=0.4.0"
colored = "=2.2.0"
