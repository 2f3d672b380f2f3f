[package]
name = "wgsl_playground"
version = "0.1.0"
edition = "2021"
publish = false

[dependencies]
wgpu = "24"
winit = "0.30"
notify = "8"
clap = { version = "4", features = ["derive"] }
futures = "0.3"
spin_sleep = "1"
