[package]
name = "wsbar"
version = "0.1.0"
edition = "2021"
publish = false

[dependencies]
chrono = { version = "=0.4.45", default-features = false, features = ["clock"] }
hyprland = "=0.3.13"
iced = { version = "=0.13.1", default-features = false, features = ["tokio", "tiny-skia"] }
