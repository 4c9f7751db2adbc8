[package]
name = "ezgl"
version = "0.1.0"
edition = "2021"
publish = false

[dependencies]
gl_constants = "*"
gl_struct_loader = "*"
gl_types = "*"
pixel_formats = "*"
