[package]
name = "config_file_handler"
version = "0.1.0"
edition = "2021"
publish = false

[dependencies]
dirs = "*"
fs2 = "*"
serde = "*"
serde_json = "*"
