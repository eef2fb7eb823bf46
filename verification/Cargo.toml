[package]
name = "voxel_terrain"
version = "0.1.0"
edition = "2021"
publish = false

[dependencies]
luminance = "0.31.1"
luminance-glfw = "0.6.1"
