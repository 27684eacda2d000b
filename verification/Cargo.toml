[package]
name = "upnp_wan_exporter_rs"
version = "0.1.0"
edition = "2021"
publish = false

[dependencies]
xml-rs = "*"
anyhow = "*"
axum = "*"
lazy_static = "*"
prometheus = "*"
reqwest = { version = "*", default-features = false }
serde = { version = "*", features = ["derive"] }
tokio = { version = "*", features = ["net", "time", "rt-multi-thread", "macros"] }
toml = "*"
tracing = "*"
tracing-subscriber = "*"
