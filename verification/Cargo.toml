[package]
name = "todoco"
version = "0.1.0"
edition = "2021"
publish = false

[dependencies]
glob = "=0.3.4"
console = "=0.16.6"
toml = "=1.1.7"

[dev-dependencies]
tempfile = "*"
