[package]
name = "image_classifier"
version = "0.1.0"
edition = "2021"
publish = false

[dependencies]
eframe = { version = "=0.22.0", default-features = false, features = ["default_fonts", "glow"] }
image = { version = "=0.24.9", default-features = false, features = ["jpeg", "png"] }
ndarray = "=0.16.1"
ort = { version = "=2.0.0-rc.10", default-features = false, features = ["load-dynamic", "ndarray", "std"] }
rfd = { version = "0.12", default-features = false, features = ["xdg-portal"] }
serde_json = "=1.0.154"
