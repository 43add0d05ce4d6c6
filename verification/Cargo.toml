[package]
name = "tcode_ui"
version = "0.1.0"
edition = "2021"
publish = false

[dependencies]
async-channel = "2"
futures-lite = "2"
image = { version = "0.25", default-features = false, features = ["png", "jpeg", "gif", "webp", "bmp", "ico", "tiff"] }
log = "0.4"
serde = { version = "1", features = ["derive"] }
serde_json = "1"
serde_json_lenient = "0.2"
unicode-segmentation = "1"
web-time = "1"
