[package]
name = "browser_chooser"
version = "0.1.0"
edition = "2021"
publish = false

[dependencies]
iced = { version = "=0.9.0", default-features = false, features = ["glow"] }
