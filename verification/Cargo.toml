[package]
name = "meilisearch_transport"
version = "0.1.0"
edition = "2021"
publish = false

[dependencies]
serde = "=1.0.229"
serde_json = "=1.0.151"
yaup = "=0.2.1"
async-trait = "=0.1.92"
futures-io = "=0.3.34"
reqwest = { version = "=0.13.5", default-features = false, features = ["stream"] }
tokio-util = { version = "=0.7.19", default-features = false, features = ["compat", "io"] }
