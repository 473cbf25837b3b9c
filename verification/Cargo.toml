[package]
name = "task_runner"
version = "0.1.0"
edition = "2021"
publish = false

[dependencies]
anyhow = "1"
clap = { version = "4", features = ["derive"] }
colored = "2"
indicatif = "0.17"
serde_json = "1"
tokio = { version = "1", features = ["full"] }
which = "*"
