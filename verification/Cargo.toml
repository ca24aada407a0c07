[package]
name = "presence_link"
version = "0.1.0"
edition = "2021"
publish = false

[dependencies]
anyhow = "=1.0.104"
esp-idf-svc = "=0.51.0"
log = "=0.4.34"
rgb = "=0.8.53"
toml-cfg = "=0.2.0"
