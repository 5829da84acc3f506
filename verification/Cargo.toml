[package]
name = "rust_string_utils"
version = "0.1.0"
edition = "2021"
publish = false

[dependencies]
duckdb = "=1.10506.0"
magnus = "=0.9.2"
