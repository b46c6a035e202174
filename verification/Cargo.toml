[package]
name = "libcnb"
version = "0.1.0"
edition = "2021"
publish = false

[dependencies]
libcnb-common = "=0.21.0"
libcnb-data = "=0.21.0"
serde = { version = "=1.0.229", features = ["derive"] }
sha2 = "*"
toml = "=0.8.23"
