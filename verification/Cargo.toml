[package]
name = "zend"
version = "0.1.0"
edition = "2021"
publish = false

[dependencies]
p256 = "0.13"
base64 = "0.21"
futures = "0.3"
getrandom = "0.2"
rand_core = { version = "0.6", features = ["getrandom"] }
serde_json = "1"
