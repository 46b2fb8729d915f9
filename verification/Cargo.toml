[package]
name = "realm"
version = "0.1.0"
edition = "2021"
publish = false

[dependencies]
trust-dns-resolver = "0.22"
kaminari = "*"
serde = { version = "1", features = ["derive"] }
serde_json = "1"
toml = "0.8"
clap = "3.2"
fern = "0.6"
chrono = "0.4"
log = "0.4"
tokio = { version = "1", features = ["full"] }
futures = "0.3"
uuid = { version = "1", features = ["v4"] }
walkdir = "2"
axum = "0.7"
lazy_static = "1"
