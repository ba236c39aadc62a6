[package]
name = "forward_renderer"
version = "0.1.0"
edition = "2021"
publish = false

[dependencies]
image = { version = "0.24", default-features = false, features = ["png"] }
bevy = { version = "0.8", default-features = false, features = ["bevy_asset", "bevy_scene", "bevy_pbr", "bevy_render", "bevy_core_pipeline", "png"] }
bevy_obj = "0.8"
bevy_rapier3d = "0.16"
bytemuck = { version = "1", features = ["derive"] }
itertools = "0.10"
rand = "0.8"
vulkano = "0.30"
vulkano-shaders = "0.30"
vulkano-win = "0.30"
winit = "0.26"
