[package]
name = "chess_ingest"
version = "0.1.0"
edition = "2021"
publish = false

[dependencies]
chrono = "=0.4.45"
dateparser = "=0.3.1"
serde_json = "=1.0.151"
reqwest = { version = "=0.13.5", default-features = false, features = ["blocking"] }
arrow = { version = "=60.0.0", default-features = false }
arrow-schema = "=60.0.0"
