[package]
name = "idalib_ts"
version = "0.1.0"
edition = "2021"
publish = false

[dependencies]
idalib = "=0.9.0"
napi = { version = "=3.16.1", features = ["napi6", "async"] }
napi-derive = "=3.7.0"
