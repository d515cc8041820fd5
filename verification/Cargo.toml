[package]
name = "gpu_temp_watch"
version = "0.1.0"
edition = "2021"
publish = false

[dependencies]
chrono = "*"
serde_json = "*"
serde = { version = "*", features = ["derive"] }
tokio = { version = "*", features = ["full"] }
axum = "*"
tower-http = { version = "*", features = ["trace"] }
nvml-wrapper = "*"
image = "*"
tray-icon = "*"
log = "*"
tracing = "*"
