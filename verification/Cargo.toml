[package]
name = "chat_relay"
version = "0.1.0"
edition = "2021"
publish = false

[dependencies]
bimap = "0.6"
tokio = { version = "1", features = ["full"] }
postcard = { version = "1", features = ["alloc"] }
serde = { version = "1", features = ["derive"] }
ratatui = "0.26"
crossterm = "0.27"
derive-error = "*"
