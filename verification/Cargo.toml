[package]
name = "mcs"
version = "0.1.0"
edition = "2021"
publish = false

[dependencies]
chrono = "*"
clap = { version = "*", features = ["derive"] }
home = "*"
indicatif = "*"
reqwest = { version = "*", default-features = false, features = ["blocking", "rustls-tls"] }
serde_json = "*"
