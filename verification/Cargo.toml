[package]
name = "duck_rage"
version = "0.1.0"
edition = "2021"
publish = false

[dependencies]
age = "*"
serde_json = "*"
duckdb = { version = "*", default-features = false, features = ["vtab", "loadable-extension"] }
