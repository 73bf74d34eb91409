[package]
name = "sculk_vibration"
version = "0.1.0"
edition = "2021"
publish = false

[dependencies]
uuid = "=1.29.0"
rand = "=0.9.5"
futures = "=0.3.34"
serde_json = "=1.0.154"
heck = "=0.5.0"
quote = "=1.0.47"
proc-macro2 = "=1.0.107"
