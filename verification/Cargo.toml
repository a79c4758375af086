[package]
name = "renderupt"
version = "0.1.0"
edition = "2021"
publish = false

[dependencies]
erupt = "0.19"
gpu-alloc = "0.4"
gpu-alloc-erupt = "0.5"
bytemuck = { version = "1", features = ["derive"] }
nalgebra = "0.29"
tobj = "3"
winit = "0.25"
libloading = "0.7"
