[package]
name = "smelter"
version = "0.1.0"
edition = "2021"
publish = false

[dependencies]
rusqlite = { version = "=0.40.2", features = ["bundled"] }
lofty = "=0.21.1"
walkdir = "=2.5.0"
dirs-next = "=2.0.0"
serde = { version = "=1.0.229", features = ["derive"] }
serde_json = "=1.0.154"
lazy_static = "=1.5.1"
