[package]
name = "geometry"
version = "0.1.0"
edition = "2021"
publish = false

[dependencies]
delaunator = "*"
voronoice = "*"
serde = { version = "*", features = ["derive"] }
serde_json = "*"
