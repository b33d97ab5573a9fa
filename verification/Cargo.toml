[package]
name = "dreamcore_image_processor"
version = "0.1.0"
edition = "2021"
publish = false

[dependencies]
rand = "*"
image = "*"
imageproc = "*"
ab_glyph = "*"
