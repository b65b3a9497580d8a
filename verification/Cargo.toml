[package]
name = "pg_pool_manager"
version = "0.1.0"
edition = "2021"
publish = false

[dependencies]
async-trait = "0.1"
futures = "0.3"
log = "0.4"
tokio = { version = "1", features = ["rt", "rt-multi-thread", "io-util", "sync", "time"] }
tokio-postgres = "0.7"
