[package]
name = "git_mate"
version = "0.1.0"
edition = "2021"
publish = false

[dependencies]
serde_json = "1"
serde = { version = "1", features = ["derive"] }
clap = "2"
colored = "2"
dialoguer = "0.10"
dirs = "5"
reqwest = { version = "0.11", default-features = false, features = ["blocking", "json", "rustls-tls"] }
