[package]
name = "irc2torrent"
version = "0.1.0"
edition = "2021"
publish = false

[dependencies]
regex = "1"
base64 = "0.22"
chrono = "0.4"
serde = { version = "1", features = ["derive"] }
serde_json = "1"
toml = "*"
directories = "*"
anyhow = "1"
log = "0.4"
simplelog = "*"
tokio = { version = "1", features = ["full"] }
futures = "0.3"
reqwest = { version = "*", features = ["json", "cookies"] }
reqwest_cookie_store = "*"
irc = "*"
