[package]
name = "dropbox_sdk"
version = "0.1.0"
edition = "2021"
publish = false

[dependencies]
serde_json = "1"
base64 = "0.22"
ring = "0.17"
url = "2"
ureq = { version = "3", default-features = false }
atty = "0.2"
