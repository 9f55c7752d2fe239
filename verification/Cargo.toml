[package]
name = "pageview"
version = "0.1.0"
edition = "2021"
publish = false

[dependencies]
ab_glyph = "0.2"
glam = "0.24"
image = { version = "0.24", default-features = false }
vulkano = "0.33"
vulkano-shaders = "0.33"
vulkano-win = "0.33"
winit = "0.28"
