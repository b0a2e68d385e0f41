[package]
name = "signaling_coordinator"
version = "0.1.0"
edition = "2021"
publish = false

[dependencies]
rand = "=0.8.8"
serde = { version = "=1.0.229", features = ["derive"] }
tokio = { version = "=1.53.2", features = ["macros", "rt-multi-thread", "sync", "signal"] }
actix-web = "=4.15.0"
actix-session = { version = "=0.11.0", features = ["cookie-session"] }
env_logger = "=0.11.11"
webrtc = "=0.21.0"
async-trait = "=0.1.92"
