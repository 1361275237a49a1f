[package]
name = "header_proxy_gateway"
version = "0.1.0"
edition = "2021"
publish = false

[dependencies]
async-trait = "=0.1.92"
bytes = "=1.12.1"
http-body-util = "=0.1.5"
http-cache-reqwest = "=0.16.0"
hyper = { version = "=1.12.0", features = ["http1", "server"] }
hyper-util = { version = "=0.1.21", features = ["tokio"] }
pretty_env_logger = "=0.5.0"
reqwest = "=0.12.28"
reqwest-middleware = "=0.4.2"
tokio = { version = "=1.54.1", features = ["full"] }
