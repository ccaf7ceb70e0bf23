[package]
name = "talk_to_cmac"
version = "0.1.0"
edition = "2021"
publish = false

[dependencies]
serde = { version = "=1.0.229", features = ["derive"] }
serde_json = "=1.0.151"
rand = "=0.10.3"
keyring = { version = "=3.6.3", default-features = false, features = ["linux-native"] }
reqwest = { version = "=0.13.5", default-features = false, features = ["json", "multipart"] }
tokio = { version = "=1.53.2", features = ["rt-multi-thread", "macros", "time"] }
thiserror = "=2.0.21"
log = "=0.4.34"
env_logger = "=0.11.11"
