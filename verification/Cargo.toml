[package]
name = "os_monitor_service"
version = "0.1.0"
edition = "2021"
publish = false

[dependencies]
cc-logger = "=0.1.1"
dirs = "=7.0.0"
dotenv = "=0.15.0"
env_logger = "=0.11.11"
log = "=0.4.34"
once_cell = "=1.21.4"
os-monitor = "=0.3.23"
parking_lot = "=0.12.5"
sqlx = { version = "=0.8.6", default-features = false, features = ["runtime-tokio", "sqlite", "time", "migrate"] }
time = "=0.3.55"
tokio = { version = "=1.54.1", features = ["full"] }
url = "=2.5.8"
uuid = { version = "=1.29.0", features = ["v4"] }
