[package]
name = "wgpu_glyph"
version = "0.1.0"
edition = "2021"
publish = false

[dependencies]
bytemuck = { version = "1", features = ["derive"] }
glyph_brush = "0.7"
wgpu = { version = "26", default-features = false, features = ["std", "wgsl"] }
