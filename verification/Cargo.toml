[package]
name = "generator"
version = "0.1.0"
edition = "2021"
publish = false

[dependencies]
minijinja = "=2.24.0"
serde = { version = "=1.0.229", features = ["derive"] }
ureq = { version = "=2.12.1", default-features = false, features = ["json"] }
