[package]
name = "shader_language_server"
version = "0.1.0"
edition = "2021"
publish = false

[dependencies]
regex = "1"
naga = { version = "0.19", features = ["wgsl-in"] }
glslang = "*"
hassle-rs = "*"
jsonrpc-core = "18"
serde = { version = "1", features = ["derive"] }
serde_json = "1"
