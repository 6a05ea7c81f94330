[package]
name = "tui_rule"
version = "0.1.0"
edition = "2021"
publish = false

[dependencies]
ratatui = { version = "0.29", features = ["unstable-widget-ref"] }
colorgrad = "0.7"
derive_builder = "0.20"
getset = "0.1"
serde = { version = "1", features = ["derive"] }
