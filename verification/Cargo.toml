[package]
name = "vi_ime"
version = "0.1.0"
edition = "2021"
publish = false

[dependencies]
unicode-normalization = "0.1"
serde = { version = "1", features = ["derive"] }
serde_json = "1"
tokio = { version = "1", features = ["rt", "rt-multi-thread", "net", "io-util", "macros", "time", "signal", "sync"] }
tokio-util = "0.7"
nix = { version = "0.29", features = ["socket", "user"] }
zbus = { version = "4", default-features = false, features = ["tokio"] }
x11rb = "0.13"
wayland-client = "0.31"
thiserror = "1"
tracing = "0.1"
tracing-subscriber = { version = "0.3", features = ["env-filter"] }
bincode = "1"
