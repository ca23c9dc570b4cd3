[package]
name = "mori"
version = "0.1.0"
edition = "2021"
publish = false

[dependencies]
bdk = { version = "0.30", features = ["keys-bip39"] }
base64 = "0.13"
pico-args = "0.5"
