[package]
name = "lapce-data"
version = "0.1.0"
edition = "2021"
publish = false

[dependencies]
indexmap = "1.9"
serde_json = "1.0"
strum = "0.24"
strum_macros = "0.24"
