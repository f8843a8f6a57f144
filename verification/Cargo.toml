[package]
name = "subsnap"
version = "0.1.0"
edition = "2021"
publish = false

[dependencies]
yuvutils-rs = "*"
anyhow = "*"
async-trait = "*"
bytemuck = "*"
clap = { version = "*", features = ["derive"] }
futures = "*"
image = { version = "*", default-features = false, features = ["jpeg"] }
mp4 = "*"
openh264 = "*"
tokio = { version = "*", features = ["rt", "rt-multi-thread", "sync", "macros", "time"] }
wgpu = "*"
