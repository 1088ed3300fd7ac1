[package]
name = "node_path"
version = "0.1.0"
edition = "2021"
publish = false

[dependencies]
godot-ffi = "*"
serde = "1"

[dev-dependencies]
serde_json = "1"
