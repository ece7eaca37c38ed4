[package]
name = "hybrid_fluid"
version = "0.1.0"
edition = "2021"
publish = false

[dependencies]
rand = { version = "=0.8.8", features = ["small_rng"] }
cgmath = { version = "=0.18.0", features = ["rand"] }
wgpu = { version = "=30.0.1", features = ["spirv"] }
notify = "=8.2.0"
shaderc = "=0.8.3"
