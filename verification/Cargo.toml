[package]
name = "hue-cli"
version = "0.1.0"
edition = "2021"
publish = false

[dependencies]
clap = "3.2"
reqwest = { version = "0.11", features = ["blocking"] }
serde = { version = "1", features = ["derive"] }
serde_json = "1"
whoami = "1"
