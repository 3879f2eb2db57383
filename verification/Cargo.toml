[package]
name = "palm_launcher"
version = "0.1.0"
edition = "2021"
publish = false

[dependencies]
glam = { version = "=0.30.10", features = ["mint", "serde"] }
serde = { version = "=1.0.229", features = ["derive"] }
stardust-xr-asteroids = "=0.51.0"
stardust-xr-fusion = "=0.51.0"
stardust-xr-gluon = "=0.51.0"
stardust-xr-molecules = "=0.51.0"
tokio = { version = "=1.54.1", features = ["full"] }
tokio-stream = "=0.1.19"
