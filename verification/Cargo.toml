[package]
name = "kvfinder"
version = "0.1.0"
edition = "2021"
publish = false

[dependencies]
fasthash = "*"
cityhasher = "*"
serde = { version = "*", features = ["derive"] }
serde_json = "*"
toml = "*"
reqwest = { version = "*", features = ["blocking", "json"] }
actix-web = "*"
