[package]
name = "meet_scribe"
version = "0.1.0"
edition = "2021"
publish = false

[dependencies]
chrono = { version = "=0.4.45", default-features = false, features = ["clock", "std"] }
env_logger = "=0.11.11"
hound = "=3.5.1"
keyring = "=2.3.3"
libpulse-binding = "=2.30.1"
libpulse-simple-binding = "=2.29.0"
log = "=0.4.34"
serde_json = "1"
thiserror = "=1.0.69"
tokio = { version = "=1.54.1", features = ["rt-multi-thread", "time", "sync"] }
