[package]
name = "prxs"
version = "0.1.0"
edition = "2021"
publish = false

[dependencies]
uuid = { version = "1", features = ["v4"] }
flate2 = "1"
unicode-segmentation = "1"
unicode-width = "0.1"
hyper = { version = "0.14", features = ["full"] }
tokio = { version = "1", features = ["full"] }
crossterm = { version = "0.27", features = ["event-stream"] }
ratatui = "0.26"
futures-util = "0.3"
http = "0.2"
serde = { version = "1", features = ["derive"] }
toml = "0.8"
dirs-next = "2"
clap = { version = "4", features = ["derive"] }
edit = "0.1"
