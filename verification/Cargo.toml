[package]
name = "myvid"
version = "0.1.0"
edition = "2021"
publish = false

[dependencies]
anyhow = "1"
bincode = "=2.0.1"
bytemuck = { version = "1", features = ["derive"] }
gstreamer = "=0.24.5"
gstreamer-app = "=0.24.5"
gstreamer-video = "=0.24.5"
iced = { version = "=0.14.0", default-features = false, features = ["wgpu-bare", "canvas", "advanced", "tokio", "x11", "wayland"] }
# Part of gstreamer, held back: its later versions need a newer compiler.
kstring = "=2.0.2"
landlock = "=0.4.7"
rustix = { version = "=1.1.6", features = ["fs", "mm", "net", "process"] }
wgpu = { version = "=27.0.1", default-features = false, features = ["std", "vulkan", "wgsl", "parking_lot"] }
