[package]
name = "mod_add"
version = "0.1.0"
edition = "2021"
publish = false

[dependencies]
ferinth = "=2.12.0"
furse = "=1.6.1"
octocrab = "=0.41.2"
reqwest = { version = "=0.12.28", default-features = false }
thiserror = "=2.0.21"

[dev-dependencies]
bytes = "=1.12.1"
http = "=1.5.0"
http-body-util = "=0.1.5"
serde_json = "=1.0.154"
