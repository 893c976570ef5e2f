[package]
name = "temp_image_store"
version = "0.1.0"
edition = "2021"
publish = false

[dependencies]
base64 = "0.21"
uuid = { version = "1", features = ["v4"] }
serde = { version = "1", features = ["derive"] }
tauri = { version = "2", default-features = false }

[dev-dependencies]
tempfile = "3"
