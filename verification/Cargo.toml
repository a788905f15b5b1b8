[package]
name = "dht_pipeline"
version = "0.1.0"
edition = "2021"
publish = false

[dependencies]
num_cpus = "1"
tokio = { version = "1", features = ["rt", "sync", "macros", "time"] }
futures = "0.3"
