[package]
name = "exd_export"
version = "0.1.0"
edition = "2021"
publish = false

[dependencies]
ironworks = { version = "=0.4.1", features = ["excel", "ffxiv", "sqpack"] }
rayon = "=1.12.0"
indicatif = "=0.18.6"
serde = { version = "=1.0.229", features = ["derive"] }
serde_json = "=1.0.151"
serde_yml = "=0.0.13"
