[package]
name = "gatts_demo"
version = "0.1.0"
edition = "2021"
publish = false

[dependencies]
anyhow = "*"
log = "*"
esp-idf-sys = "*"
esp-idf-hal = "*"
esp-idf-svc = "*"
