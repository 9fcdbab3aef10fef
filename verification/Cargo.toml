[package]
name = "epsilon"
version = "0.1.0"
edition = "2021"
publish = false

[dependencies]
glam = "=0.34.1"
serde = { version = "=1.0.229", features = ["derive"] }
toml = "=0.9.8"
linux-embedded-hal = "=0.3.2"
mpu6050 = "=0.1.6"
