[package]
name = "heatctl"
version = "0.1.0"
edition = "2021"
publish = false

[dependencies]
anyhow = "*"
axum = "*"
pid = "*"
serde = { version = "*", features = ["derive"] }
snap7-rs = "*"
tokio = { version = "*", features = ["full"] }
tower-http = { version = "*", features = ["cors"] }
