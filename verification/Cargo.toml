[package]
name = "tui_client"
version = "0.1.0"
edition = "2021"
publish = false

[dependencies]
async-trait = "*"
chrono = "*"
clap = { version = "*", features = ["derive"] }
crossterm = { version = "*", features = ["event-stream"] }
futures = "*"
image = { version = "*", default-features = false, features = ["png"] }
include_dir = "*"
log = "*"
ratatui = "*"
ratatui-image = { version = "*", default-features = false }
serde = { version = "*", features = ["derive"] }
serde_json = "*"
thiserror = "*"
tokio = { version = "*", features = ["full"] }
tracing = "*"
tracing-subscriber = { version = "*", features = ["env-filter"] }
tui-input = "*"
tui-logger = "*"
uuid = { version = "*", features = ["v4"] }
