[package]
name = "threshold_wallet"
version = "0.1.0"
edition = "2021"
publish = false

[dependencies]
curv-kzen = "=0.10.0"
centipede = "=0.3.1"
bitcoin = "=0.26.2"
hex = "=0.4.3"
uuid = { version = "1", features = ["v4"] }
serde = { version = "1", features = ["derive"] }
serde_json = "1"
log = "0.4"
anyhow = "1"
itertools = "0.14"
dotenv = "*"
envy = "*"
rocket = { version = "0.5", features = ["json"] }
reqwest = { version = "0.11.27", default-features = false, features = ["blocking", "json"] }
