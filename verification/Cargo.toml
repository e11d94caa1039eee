[package]
name = "piri"
version = "0.1.0"
edition = "2021"
publish = false

[dependencies]
anyhow = "1"
async-trait = "*"
log = "0.4"
niri-ipc = "*"
serde = { version = "1", features = ["derive"] }
tokio = { version = "1", features = ["sync", "time", "rt", "macros"] }
