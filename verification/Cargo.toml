[package]
name = "dbx_client"
version = "0.1.0"
edition = "2021"
publish = false

[dependencies]
dropbox-sdk = "*"
log = "*"
reqwest = { version = "=0.12.28", default-features = false, features = ["blocking"] }
serde = { version = "*", features = ["derive"] }
serde_json = "*"
