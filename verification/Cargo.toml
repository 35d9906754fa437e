[package]
name = "teamgate"
version = "0.1.0"
edition = "2021"
publish = false

[dependencies]
base64 = "=0.13.1"
sha2 = "=0.10.9"
serde = { version = "=1.0.229", features = ["derive"] }
validator = { version = "=0.16.1", features = ["derive"] }
axum = "=0.6.20"
dioxus = "=0.4.3"
dioxus-ssr = "0.4"
