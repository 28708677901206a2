[package]
name = "focustime"
version = "0.1.0"
edition = "2021"
publish = false

[dependencies]
serde = { version = "1", features = ["derive"] }
serde_json = "1"
toml = "*"
chrono = "0.4"
base64 = "0.22"
getrandom = "0.3"
ureq = { version = "3", features = ["json"] }
tiny_http = "0.12"
