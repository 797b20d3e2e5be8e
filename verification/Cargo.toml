[package]
name = "naga_js"
version = "30.0.1"
edition = "2021"
publish = false

[dependencies]
naga = { version = "=30.0.1", features = ["wgsl-in", "glsl-in", "spv-in", "wgsl-out", "glsl-out", "hlsl-out", "msl-out", "spv-out", "dot-out"] }
napi = "=3.16.1"
napi-derive = "=3.7.0"
pp-rs = "=0.2.1"
