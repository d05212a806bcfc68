[package]
name = "artist_ingest"
version = "0.1.0"
edition = "2021"
publish = false

[dependencies]
anyhow = "*"
clap = { version = "*", features = ["derive"] }
csv = "*"
image = "=0.25.10"
native_db = "=0.8.2"
native_model = "=0.4.20"
rayon = "*"
serde = { version = "*", features = ["derive"] }
uuid = { version = "=1.27.0", features = ["v7"] }
