[package]
name = "igri"
version = "0.1.0"
edition = "2021"
publish = false

[dependencies]
anyhow = "1"
darling = "=0.20.11"
glow = "=0.10.0"
glutin = "=0.28.0"
imgui = "=0.8.2"
imgui-glow-renderer = "=0.8.3"
imgui-winit-support = { version = "=0.8.2", default-features = false, features = ["winit-26"] }
paste = "1"
proc-macro2 = "1"
quote = "1"
syn = "=2.0.119"
