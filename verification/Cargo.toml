[package]
name = "pathtracer"
version = "0.1.0"
edition = "2021"
publish = false

[dependencies]
wgpu = "22"
winit = "0.30"
pollster = "*"
log = "*"
bytemuck = "*"
sobol_burley = "*"
