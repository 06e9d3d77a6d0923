[package]
name = "spotify_gateway"
version = "0.1.0"
edition = "2021"
publish = false

[dependencies]
async-std = "1"
dotenv = "0.15"
rspotify = "0.10"
serde = { version = "1", features = ["derive"] }
serde_json = "1"
tide = "0.16"
