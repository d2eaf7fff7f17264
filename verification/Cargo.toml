[package]
name = "wallpaper_switcher"
version = "0.1.0"
edition = "2021"
publish = false

[dependencies]
anyhow = "1"
dirs = "*"
display-info = "*"
humantime = "2"
rand = "0.9"
reqwest = { version = "0.12", features = ["json"] }
serde = { version = "1", features = ["derive"] }
serde_json = "1"
tokio = { version = "1", features = ["fs", "sync", "time", "macros", "rt-multi-thread"] }
user-idle = "*"
wallpaper = "3"
