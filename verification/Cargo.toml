[package]
name = "luminos"
version = "0.1.0"
edition = "2021"
publish = false

[dependencies]
wgpu = "*"
x11rb = "*"
libc = "0.2"
log = "0.4"
env_logger = "*"
serde = { version = "1", features = ["derive"] }
toml = "*"
directories = "*"
arc-swap = "1"
pollster = "*"
bytemuck = { version = "1", features = ["derive"] }
raw-window-handle = "0.6"
thiserror = "*"
tokio = { version = "1", default-features = false, features = ["sync"] }
