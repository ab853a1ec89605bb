[package]
name = "display_sim"
version = "0.1.0"
edition = "2021"
publish = false

[dependencies]
serde = { version = "=1.0.229", features = ["derive"] }
serde_json = "=1.0.154"
nalgebra-glm = "=0.21.0"
rand = "=0.8.8"
image = { version = "=0.25.10", default-features = false, features = ["png"] }
glutin = "0.29"
