[package]
name = "cosmin"
version = "0.1.0"
edition = "2021"
publish = false

[dependencies]
serde = { version = "1", features = ["derive"] }
serde_json = { version = "1", features = ["raw_value"] }
reqwest = { version = "0.11", default-features = false }
abscissa_core = "0.6"
abscissa_tokio = "0.6"
axum = "0.6"
hyper = { version = "0.14", features = ["server", "client", "http1", "tcp", "stream"] }
tower-http = { version = "0.4", features = ["trace"] }
clap = { version = "3", features = ["derive"] }
cosmrs = { version = "0.10", default-features = false, features = ["rpc"] }
