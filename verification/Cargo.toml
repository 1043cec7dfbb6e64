[package]
name = "hedwig"
version = "0.1.0"
edition = "2021"
publish = false

[dependencies]
anyhow = "1"
chrono = "0.4"
cron = "*"
dirs = "*"
flexi_logger = { version = "*", features = ["trc"] }
http = "1"
image = { version = "*", default-features = false, features = ["png"] }
mac-notification-sys = "*"
notify = "*"
reqwest = { version = "0.12", default-features = false, features = ["rustls-tls"] }
roxmltree = "*"
serde = { version = "1", features = ["derive"] }
tao = "*"
tokio = { version = "1", features = ["full"] }
toml = "*"
tracing = "0.1"
tray-icon = "*"
