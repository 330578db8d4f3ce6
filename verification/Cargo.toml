[package]
name = "mupen64plus-input-gca"
version = "0.4.0"
edition = "2021"
publish = false

[dependencies]
libloading = "0.7"
once_cell = "1"
rusb = "0.9"
serde = { version = "1", features = ["derive"] }
toml = "0.5"
