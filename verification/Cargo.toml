[package]
name = "orion_rpc"
version = "0.1.0"
edition = "2021"
publish = false

[dependencies]
semver = "=1.0.28"
auto-launch = "=0.6.0"
discord-rich-presence = "=1.1.0"
interprocess = "=2.4.7"
self_update = { version = "=1.3.3", default-features = false, features = ["ureq", "rustls", "github"] }
serde = { version = "=1.0.229", features = ["derive"] }
serde_json = "=1.0.154"
thiserror = "=2.0.21"
tracing = "=0.1.44"
