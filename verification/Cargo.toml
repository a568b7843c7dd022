[package]
name = "aggregator"
version = "0.1.0"
edition = "2021"
publish = false

[dependencies]
tokio = { version = "1", features = ["full"] }
tokio-postgres = "0.7"
hyper = { version = "0.14", features = ["full"] }
tonic = "0.12"
prost = "0.13"
dotenv = "0.15"
tracing = "0.1"
tracing-subscriber = { version = "0.3", features = ["env-filter"] }
