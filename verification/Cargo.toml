[package]
name = "mini_claude_code"
version = "0.1.0"
edition = "2021"
publish = false

[dependencies]
anyhow = "1"
async-trait = "0.1"
clap = { version = "4", features = ["derive"] }
crossterm = "0.28"
futures-util = "0.3"
globwalk = "0.9"
hex = "0.4"
humantime = "2"
reqwest = { version = "0.12", default-features = false, features = ["json", "stream", "rustls-tls"] }
serde = { version = "1", features = ["derive"] }
serde_json = "1"
syntect = { version = "5", default-features = false, features = ["default-fancy"] }
termimad = "*"
tokio = { version = "1", features = ["full"] }
uuid = { version = "1", features = ["v4"] }
