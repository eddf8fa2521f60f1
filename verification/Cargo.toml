[package]
name = "thrustbench"
version = "0.1.0"
edition = "2021"
publish = false

[dependencies]
anyhow = "*"
bytes = "*"
clap = { version = "*", features = ["derive"] }
colored = "*"
dirs = "*"
http-body-util = "*"
humantime = "*"
hyper = { version = "*", features = ["client", "http1"] }
hyper-util = { version = "*", features = ["tokio"] }
indicatif = "*"
regex = "*"
serde = { version = "*", features = ["derive"] }
serde_json = "*"
tokio = { version = "*", features = ["full"] }
