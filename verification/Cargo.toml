[package]
name = "jdtls_bootstrap"
version = "0.1.0"
edition = "2021"
publish = false

[dependencies]
anyhow = "1"
flate2 = "1"
lapce-plugin = "*"
serde_json = "1"
tar = "0.4"
url = "2"
