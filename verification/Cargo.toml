[package]
name = "azdls"
version = "0.1.0"
edition = "2021"
publish = false

[dependencies]
http = "1"
reqsign = "0.16"
reqwest = { version = "0.12", default-features = false }
serde = { version = "1", features = ["derive"] }
serde_json = "1"
