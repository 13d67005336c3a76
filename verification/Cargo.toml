[package]
name = "event_bridge"
version = "0.1.0"
edition = "2021"
publish = false

[dependencies]
chrono = "*"
cursive = "*"
fern = "*"
futures = "*"
log = "*"
signal-hook = "*"
signal-hook-tokio = { version = "*", features = ["futures-v0_3"] }
tokio = { version = "*", features = ["full"] }
