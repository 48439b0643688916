[package]
name = "ahk-rust"
version = "0.1.0"
edition = "2021"
publish = false

[dependencies]
anyhow = "=1.0.104"
async-trait = "=0.1.92"
clap = { version = "=4.6.7", features = ["derive"] }
dashmap = "=6.2.1"
evdev = "=0.13.2"
figment = { version = "=0.10.19", features = ["toml", "env"] }
parking_lot = "=0.12.5"
serde = { version = "=1.0.229", features = ["derive"] }
smallvec = "=1.16.4"
thiserror = "=1.0.69"
tokio = { version = "=1.54.1", features = ["full"] }
tracing = "=0.1.44"
tracing-subscriber = { version = "=0.3.23", features = ["env-filter"] }
uinput = { version = "=0.1.3", default-features = false }
zbus = "=5.19.0"
