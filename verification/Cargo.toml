[package]
name = "error_pages"
version = "0.1.0"
edition = "2021"
publish = false

[dependencies]
http-body-util = "0.1"
hyper = { version = "1", features = ["http1", "server"] }
hyper-util = { version = "0.1", features = ["tokio"] }
log = "0.4"
pretty_env_logger = "0.5"
tokio = { version = "1", features = ["macros", "net", "rt"] }
