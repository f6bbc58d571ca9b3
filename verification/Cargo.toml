[package]
name = "lawkit-js"
version = "0.1.0"
edition = "2021"
publish = false

[dependencies]
lawkit-core = "*"
regex = "1"
serde_json = "1"
napi = { version = "2", default-features = false, features = ["napi4", "serde-json"] }
napi-derive = "2"
