[package]
name = "lens_flare"
version = "0.1.0"
edition = "2021"
publish = false

[dependencies]
snailquote = "0.3"
cgmath = "0.18"
gl = "0.14"
glutin = "0.26"
image = { version = "0.23", default-features = false, features = ["png"] }
imgui = "0.7"
imgui-opengl-renderer = "0.11"
imgui-winit-support = "0.7"
log = "0.4"
simple_logger = "1"
thiserror = "1"
anyhow = "1"
