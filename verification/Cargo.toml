[package]
name = "property_defs_rs"
version = "0.1.0"
edition = "2021"
publish = false

[dependencies]
ahash = "0.8"
quick_cache = "*"
tokio = { version = "1", features = ["sync", "rt-multi-thread", "macros", "time"] }
axum = "*"
envconfig = "*"
futures = "0.3"
metrics = "*"
rdkafka = "*"
tracing = "0.1"
tracing-subscriber = { version = "0.3", features = ["env-filter"] }
