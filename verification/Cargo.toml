[package]
name = "gpu_track"
version = "0.1.0"
edition = "2021"
publish = false

[dependencies]
gfx-hal = "=0.5.3"
log = "=0.4.34"
wgpu-core = "=0.8.2"
wgpu-types = "=0.8.0"
