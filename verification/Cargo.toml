[package]
name = "lantir"
version = "0.1.0"
edition = "2021"
publish = false

[dependencies]
anyhow = "=1.0.104"
ash = "=0.38.0"
glam = "=0.29.3"
gltf = { version = "=1.4.1", default-features = false, features = ["names", "utils"] }
half = "=2.7.1"
image = { version = "=0.25.10", default-features = false, features = ["exr", "jpeg", "png"] }
