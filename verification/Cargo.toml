[package]
name = "enversal"
version = "0.1.0"
edition = "2021"
publish = false

[dependencies]
uuid = { version = "1", features = ["v4"] }
serde = { version = "1", features = ["derive"] }
serde_json = "1"
regex = "1"
anyhow = "1"
thiserror = "2"
tokio = { version = "1", features = ["full"] }
tokio-stream = { version = "0.1", features = ["sync"] }
async-trait = "0.1"
cfg-if = "1"
reqwest = { version = "0.12", default-features = false, features = ["json"] }
secrecy = "0.10"
owo-colors = "4"
termimad = "*"
crossterm = { version = "0.28", features = ["event-stream"] }
ratatui = "0.29"
tui-markdown = { version = "*", default-features = false }
