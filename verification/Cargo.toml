[package]
name = "payjoin_receive"
version = "0.1.0"
edition = "2021"
publish = false

[dependencies]
payjoin = { version = "=0.8.3", features = ["receive"] }
