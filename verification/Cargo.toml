[package]
name = "rect_compute"
version = "0.1.0"
edition = "2021"
publish = false

[dependencies]
wgpu = "22"
flume = "*"
bytemuck = { version = "*", features = ["derive"] }
tokio = { version = "*", features = ["rt"] }
