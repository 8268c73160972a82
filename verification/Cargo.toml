[package]
name = "gitsync"
version = "0.1.0"
edition = "2021"
publish = false

[dependencies]
failure = "0.1"
failure_derive = "0.1"
gitlab = "*"
rayon = "1"
serde = { version = "1", features = ["derive"] }
serde_derive = "1"
serde_json = "1"
toml = "0.4"
