[package]
name = "sprite_marker"
version = "0.1.0"
edition = "2021"
publish = false

[dependencies]
gtk = "*"
image = "*"
serde = { version = "1", features = ["derive"] }
serde_json = "1"
