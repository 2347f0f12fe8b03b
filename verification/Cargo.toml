[package]
name = "vk_renderer"
version = "0.1.0"
edition = "2021"
publish = false

[dependencies]
anyhow = "1"
ash = "0.38"
libc = "0.2"
num-traits = "0.2"
tracing = "0.1"
tracing-subscriber = "0.3"
