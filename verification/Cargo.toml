[package]
name = "jogicode"
version = "1.0.7"
edition = "2021"
publish = false

[dependencies]
tauri = { version = "2", default-features = false, features = ["wry"] }
