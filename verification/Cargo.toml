[package]
name = "z_buffer_game"
version = "0.1.0"
edition = "2021"
publish = false

[dependencies]
bluenoisers = "*"
dirs = "*"
serde = { version = "*", features = ["derive"] }
toml = "*"
