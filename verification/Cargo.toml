[package]
name = "desktop_lib"
version = "0.1.0"
edition = "2021"
publish = false

[dependencies]
anyhow = "1"
log = "0.4"
notify = "*"
serde = { version = "1", features = ["derive"] }
serde_json = "1"
tempfile = "3"
thiserror = "*"
toml = "*"
uuid = { version = "1", features = ["v4"] }
walkdir = "2"
which = "*"
