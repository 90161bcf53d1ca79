[package]
name = "task_fighter"
version = "0.1.0"
edition = "2021"
publish = false

[dependencies]
rand = "0.8"
jiff = "0.2"
eframe = { version = "*", default-features = false, features = ["default_fonts", "glow", "x11"] }
