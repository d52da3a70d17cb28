[package]
name = "juiz_core"
version = "0.1.0"
edition = "2021"
publish = false

[dependencies]
regex = "1"
serde_json = "1"
anyhow = "1"
log = "0.4"
libloading = "0.8"
clap = { version = "4", features = ["derive"] }
utoipa = "4"
axum = "0.7"
pyo3 = "0.21"
