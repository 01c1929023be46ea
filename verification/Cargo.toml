[package]
name = "ffgpu"
version = "0.1.0"
edition = "2021"
publish = false

[dependencies]
arc-swap = "*"
ash = "0.38"
atomic_float = "*"
cpal = "*"
crossbeam-channel = "0.5"
ffmpeg-next = "8"
libc = "0.2"
log = "0.4"
wgpu = { version = "28", features = ["vulkan", "wgsl"] }
