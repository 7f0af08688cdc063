[package]
name = "render_core"
version = "0.1.0"
edition = "2021"
publish = false

[dependencies]
glium = "0.23"
image = "0.21"
imgui = "0.0.22"
imgui-glium-renderer = "0.0.22"
nalgebra-glm = "0.2"
tobj = "0.1"
