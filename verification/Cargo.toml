[package]
name = "nwest_shared_component_library"
version = "0.1.0"
edition = "2021"
publish = false

[dependencies]
bevy_ecs = "*"
serde = { version = "*", features = ["derive"] }
thiserror = "*"
