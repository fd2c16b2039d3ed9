[package]
name = "rvemu_cli"
version = "0.1.0"
edition = "2021"
publish = false

[dependencies]
clap = "2"
dotenvy = "0.15"
reqwest = { version = "0.12", default-features = false, features = ["blocking", "json", "rustls-tls"] }
serde = { version = "1", features = ["derive"] }
