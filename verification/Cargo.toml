[package]
name = "rust_fetch"
version = "0.1.0"
edition = "2021"
publish = false

[dependencies]
reqwest = { version = "0.11", default-features = false, features = ["rustls-tls", "cookies"] }
rustls = "0.21"
rustls-native-certs = "0.6"
tokio = { version = "1", features = ["rt-multi-thread", "time"] }
futures-retry = "0.6"
bytes = "1"
log = "0.4"
env_logger = "0.10"

[dev-dependencies]
rcgen = "0.11"
