[package]
name = "rpc_config"
version = "0.1.0"
edition = "2021"
publish = false

[dependencies]
serde = "=1.0.229"
toml = "=0.8.23"
tracing = "=0.1.44"
