[package]
name = "cursed_coddy"
version = "0.1.0"
edition = "2021"
publish = false

[dependencies]
serde_json = "1"
serde = { version = "1", features = ["derive"] }
anyhow = "1"
clap = { version = "4", features = ["derive"] }
colored = "2"
indicatif = "0.17"
inquire = "0.7"
rand = "0.8"
reqwest = { version = "0.12", default-features = false, features = ["blocking", "json"] }
