[package]
name = "vector_store"
version = "0.1.0"
edition = "2021"
publish = false

[dependencies]
anyhow = "=1.0.104"
cuvs = "=26.10.0"
cuvs-sys = "=26.10.0"
dotenvy = "=0.15.7"
futures = "=0.3.34"
opensearch = { version = "=2.4.0", default-features = false, features = ["rustls-tls"] }
rayon = "=1.12.0"
scylla = "=1.9.0"
serde_json = "=1.0.154"
tokio = { version = "=1.54.1", features = ["full"] }
tracing = "=0.1.44"
tracing-subscriber = { version = "=0.3.23", features = ["env-filter"] }
