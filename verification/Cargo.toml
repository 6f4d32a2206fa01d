[package]
name = "gpu_matmul"
version = "0.1.0"
edition = "2021"
publish = false

[dependencies]
wgpu = "0.13"
bytemuck = "1"
futures-intrusive = "0.5"
tokio = { version = "1", features = ["macros", "rt-multi-thread"] }
