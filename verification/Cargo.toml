[package]
name = "window_render"
version = "0.1.0"
edition = "2021"
publish = false

[dependencies]
bevy_app = { version = "0.18", default-features = false, features = ["std"] }
bevy_camera = { version = "0.18", default-features = false }
bevy_ecs = { version = "0.18", default-features = false, features = ["std"] }
bevy_math = { version = "0.18", default-features = false, features = ["std"] }
bevy_platform = { version = "0.18", default-features = false, features = ["std"] }
bevy_utils = { version = "0.18", default-features = false, features = ["std"] }
bevy_window = { version = "0.18", default-features = false, features = ["std"] }
metal = "0.32"
objc = "0.2"
parking_lot = "0.12"
tracing = { version = "0.1", default-features = false, features = ["std"] }
wgpu = { version = "27", default-features = false, features = ["wgsl", "vulkan", "metal"] }
