[package]
name = "ekrano"
version = "0.1.0"
edition = "2021"
publish = false

[dependencies]
bytemuck = { version = "1", features = ["derive"] }
goldy = "*"
log = "0.4"
peniko = "*"
skrifa = "*"
thiserror = "2"
wgpu = "*"
wgpu-profiler = "*"
