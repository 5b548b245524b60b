[package]
name = "dikt"
version = "0.1.0"
edition = "2021"
publish = false

[dependencies]
regex = "1"
hound = "3"
base64 = "0.22"
uuid = { version = "1", features = ["v4"] }
serde = { version = "1", features = ["derive"] }
serde_json = "1"
once_cell = "1"
async-trait = "0.1"
tokio = { version = "1", features = ["rt", "rt-multi-thread", "macros"] }
reqwest = { version = "0.12", default-features = false, features = ["multipart", "rustls-tls"] }
arboard = { version = "3", default-features = false }
enigo = "*"
keyring = "*"
cpal = "*"
