[package]
name = "frame_presenter"
version = "0.1.0"
edition = "2021"
publish = false

[dependencies]
anyhow = "1"
env_logger = "0.8"
futures = "0.3"
imgui = "0.6"
imgui-wgpu = "0.12"
imgui-winit-support = "0.6"
log = "0.4"
thiserror = "1"
wgpu = "0.6"
winit = "0.23"
