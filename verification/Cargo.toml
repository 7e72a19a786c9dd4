[package]
name = "runpod"
version = "0.1.0"
edition = "2021"
publish = false

[dependencies]
clap = { version = "*", features = ["derive"] }
dirs = "*"
reqwest = { version = "*", default-features = false, features = ["json", "rustls-tls"] }
serde = { version = "*", features = ["derive"] }
serde_json = "*"
tabled = "*"
thiserror = "*"
tokio = { version = "*", features = ["rt-multi-thread", "macros"] }
toml = "*"
url = "*"
