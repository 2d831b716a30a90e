[package]
name = "miri_layout"
version = "0.1.0"
edition = "2021"
publish = false

[dependencies]
niri-ipc = "25"
serde = { version = "1", features = ["derive"] }
serde_json = "1"
tokio = { version = "1", features = ["rt-multi-thread", "macros", "sync", "net", "io-util"] }
clap = { version = "4", features = ["derive"] }
config = { version = "0.15", default-features = false, features = ["toml"] }
