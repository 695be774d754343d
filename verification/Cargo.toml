[package]
name = "sql_analysis"
version = "0.1.0"
edition = "2021"
publish = false

[dependencies]
sqlite3-parser = "=0.17.0"
fallible-iterator = "=0.3.0"
bumpalo = "=3.20.3"
wasm-bindgen = "*"
