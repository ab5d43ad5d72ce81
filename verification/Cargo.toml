[package]
name = "github_dev_app"
version = "0.1.0"
edition = "2021"
publish = false

[dependencies]
anyhow = "*"
axum = "*"
clap = { version = "*", features = ["derive"] }
open = "*"
reqwest = { version = "*", default-features = false, features = ["json"] }
serde = { version = "*", features = ["derive"] }
serde_json = "*"
tokio = { version = "*", features = ["macros", "net", "rt-multi-thread", "sync", "time"] }
url = "*"
