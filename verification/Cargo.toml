[package]
name = "host_insight"
version = "0.1.0"
edition = "2021"
publish = false

[dependencies]
rand = "0.8"
can-dbc = "*"
toml = "*"
serde = "1"
serde_derive = "1"
tonic = { version = "0.12", features = ["tls"] }
prost = "0.13"
tokio = { version = "1", features = ["full"] }
tokio-socketcan = "*"
async-std = "1"
async-lock = "*"
futures = "0.3"
gpio-cdev = { version = "*", features = ["async-tokio"] }
lazy_static = "1"
clap = { version = "4", features = ["cargo"] }
anyhow = "1"
