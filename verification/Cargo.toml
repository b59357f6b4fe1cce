[package]
name = "field_viewer"
version = "0.1.0"
edition = "2021"
publish = false

[dependencies]
bytemuck = { version = "1", features = ["derive", "extern_crate_alloc"] }
minifb = "0.27"
pollster = "0.3"
wgpu = "22"
