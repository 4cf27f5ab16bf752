[package]
name = "furtherance"
version = "0.1.0"
edition = "2021"
publish = false

[dependencies]
aes-gcm = "0.10"
base64 = "0.22"
blake3 = "1"
chrono = { version = "0.4", features = ["serde"] }
directories = "*"
regex = "1"
reqwest = { version = "0.12", features = ["json"] }
rusqlite = { version = "*", features = ["chrono"] }
serde = { version = "1", features = ["derive"] }
serde_json = "1"
tokio = { version = "1", features = ["rt-multi-thread", "time", "macros"] }
toml = "*"
