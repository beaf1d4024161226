[package]
name = "dual_kawase"
version = "0.1.0"
edition = "2021"
publish = false

[dependencies]
cpu-time = "1"
gl = "=0.14.0"
glyph_brush = "=0.6.3"
image = "=0.22.5"
sdl2 = { version = "=0.34.5", features = ["gfx"] }
