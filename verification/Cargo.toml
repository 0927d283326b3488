[package]
name = "specter_registry"
version = "0.1.0"
edition = "2021"
publish = false

[dependencies]
rustler = "=0.33.0"
