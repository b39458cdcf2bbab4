[package]
name = "fileshare_build"
version = "0.1.0"
edition = "2021"
publish = false

[dependencies]
anyhow = "*"
fsio = "*"
futures = "*"
globset = "*"
notify = "*"
rand = "*"
serde = { version = "*", features = ["derive"] }
serde_json = "*"
structopt = "*"
tokio = { version = "*", features = ["full"] }
tokio-rustls = "*"
tokio-tungstenite = "*"
toml = "*"
tungstenite = "*"
walkdir = "*"
which = "*"
