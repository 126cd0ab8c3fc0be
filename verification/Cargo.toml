[package]
name = "rapidraw"
version = "0.1.0"
edition = "2021"
publish = false

[dependencies]
image = { version = "=0.25.10", default-features = false, features = ["tiff"] }
serde = { version = "=1.0.229", features = ["derive"] }
serde_json = "=1.0.154"
tauri = { version = "2", default-features = false }

[dev-dependencies]
tempfile = "=3.27.0"
