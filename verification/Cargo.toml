[package]
name = "rtpl"
version = "0.1.0"
edition = "2021"
publish = false

[dependencies]
anyhow = "1"
clap = { version = "4", features = ["derive"] }
serde_json = "1"
tera = "1"

[dev-dependencies]
tempfile = "3"
