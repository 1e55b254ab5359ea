[package]
name = "input0"
version = "0.1.0"
edition = "2021"
publish = false

[dependencies]
serde = { version = "=1.0.229", features = ["derive"] }
serde_json = "=1.0.154"
thiserror = "=2.0.21"
toml = "=0.8.23"
dirs = "=5.0.1"
log = "=0.4.35"
reqwest = { version = "=0.12.28", features = ["json", "stream"] }
tokio = { version = "=1.54.1", features = ["fs", "io-util", "rt", "rt-multi-thread"] }
rubato = "=0.15.0"
arboard = { version = "=3.7.0", default-features = false }
cpal = "=0.15.3"
cocoa = "0.26"
objc = "0.2"
