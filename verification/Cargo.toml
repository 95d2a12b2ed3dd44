[package]
name = "avatar_studio"
version = "0.1.0"
edition = "2021"
publish = false

[dependencies]
serde = { version = "=1.0.229", features = ["derive"] }
serde_json = "=1.0.154"
anyhow = "=1.0.104"
thiserror = "=1.0.69"
clap = { version = "=4.6.7", features = ["derive"] }
dirs = "=5.0.1"
image = { version = "=0.25.10", default-features = false, features = ["png", "gif"] }
gltf = "=1.4.1"
rusqlite = { version = "=0.31.0", features = ["bundled"] }
glam = "0.29"
