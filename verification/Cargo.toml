[package]
name = "edgelet_settings"
version = "0.1.0"
edition = "2021"
publish = false

[dependencies]
serde = "=1.0.229"
serde_json = "=1.0.154"
url = "=2.5.8"

[dev-dependencies]
config = { version = "=0.15.27", default-features = false, features = ["json"] }
