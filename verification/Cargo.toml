[package]
name = "lidarino"
version = "0.1.0"
edition = "2021"
publish = false

[dependencies]
serde = { version = "=1.0.229", features = ["derive"] }
serde_json = "=1.0.151"
toml = "=1.1.6"
mio-serial = "=5.0.7"
rppal = "=0.22.1"
rppal-mcp23s17 = "=0.1.5"
linux-embedded-hal = "=0.3.2"
mpu9250 = { version = "=0.25.0", features = ["i2c"] }
nalgebra = "=0.34.2"
ahrs = "=0.8.0"
