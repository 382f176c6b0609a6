[package]
name = "triangle_renderer"
version = "0.1.0"
edition = "2021"
publish = false

[dependencies]
bytemuck = "=1.25.2"
futures = "=0.3.34"
glfw = "=0.39.1"
imgui = "=0.4.0"
imgui-glfw-support = "=0.3.0"
imgui-wgpu = "=0.7.0"
shaderc = "=0.10.1"
wgpu = "=0.5.2"
