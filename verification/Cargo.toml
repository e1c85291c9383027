[package]
name = "mlbstats"
version = "0.1.0"
edition = "2021"
publish = false

[dependencies]
anyhow = "*"
clap = { version = "*", features = ["derive"] }
reqwest = { version = "*", default-features = false, features = ["json"] }
serde = { version = "*", features = ["derive"] }
serde_url_params = "*"
tabled = "*"
tokio = { version = "*", features = ["rt-multi-thread", "macros"] }
