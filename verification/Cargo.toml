[package]
name = "safe_vault"
version = "0.1.0"
edition = "2021"
publish = false

[dependencies]
log = "=0.4.34"
safe-nd = "=0.10.0"
threshold_crypto = "=0.3.2"
