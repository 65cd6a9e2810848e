[package]
name = "oca_entry"
version = "0.1.0"
edition = "2021"
publish = false

[dependencies]
oca-sdk-rs = "*"
serde = { version = "*", features = ["derive"] }
serde_json = "*"
umya-spreadsheet = "*"
