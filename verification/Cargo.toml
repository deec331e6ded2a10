[package]
name = "rayforce-adapter"
version = "0.1.0"
edition = "2021"
publish = false

[dependencies]
libc = "0.2"
serde_json = "1"
thiserror = "2"
