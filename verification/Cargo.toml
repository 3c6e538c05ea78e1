[package]
name = "murmur"
version = "0.1.1"
edition = "2021"
publish = false

[dependencies]
anyhow = "=1.0.104"
chrono = "=0.4.45"
dirs = "=6.0.0"
evdev = "=0.13.2"
futures = "=0.3.34"
hound = "=3.5.1"
parakeet-rs = { version = "=0.4.4", default-features = false, features = ["cpu", "load-dynamic"] }
regex = "=1.13.1"
serde = { version = "=1.0.229", features = ["derive"] }
tokio = { version = "=1.54.1", features = ["macros", "rt-multi-thread", "sync", "time"] }
toml = "=1.1.8"
tracing = "=0.1.44"
tracing-subscriber = { version = "=0.3.23", features = ["env-filter"] }
ureq = "=3.5.1"
zbus = { version = "=5.19.0", default-features = false, features = ["tokio"] }
