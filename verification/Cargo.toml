[package]
name = "ecs_engine"
version = "0.1.0"
edition = "2021"
publish = false

[dependencies]
anyhow = "1"
bytemuck = { version = "1", features = ["derive"] }
cgmath = "0.17"
clap = "2.33"
futures = "0.3"
image = "0.23"
log = "0.4"
log4rs = "1.0"
rodio = "0.13"
tobj = "2.0"
wgpu = "0.6"
wgpu_glyph = "0.10"
winit = "0.23"
wrapped2d = "0.4"
