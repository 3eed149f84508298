[package]
name = "notification_service"
version = "0.1.0"
edition = "2021"
publish = false

[dependencies]
aruna-rust-api = "=0.5.0"
prost = "=0.11.9"
uuid = { version = "=1.29.0", features = ["v4"] }
tonic = "=0.8.3"
tokio = { version = "=1.54.1", features = ["rt-multi-thread", "macros", "sync"] }
async-nats = "=0.50.0"
async-stream = "=0.3.6"
async-trait = "=0.1.92"
async-channel = "=2.5.0"
futures = "=0.3.34"
log = "=0.4.34"
env_logger = "=0.11.11"
chrono = "=0.4.45"
dotenv = "=0.15.0"
