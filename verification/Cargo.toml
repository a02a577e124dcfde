[package]
name = "malloc_test"
version = "0.1.0"
edition = "2021"
publish = false

[dependencies]
axum = "0.6"
env_logger = "0.10"
hyper = "0.14"
log = "0.4"
speedb = "*"
tikv-jemalloc-ctl = { version = "0.5", features = ["use_std"] }
tikv-jemallocator = "0.5"
tokio = { version = "1", features = ["full"] }
