[package]
name = "vsm_core"
version = "0.1.0"
edition = "2021"
publish = false

[dependencies]
serde_json = "=1.0.151"
serde = { version = "=1.0.229", features = ["derive"] }
reqwest = { version = "=0.13.5", default-features = false, features = ["cookies", "json", "query"] }
reqwest_cookie_store = "=0.10.0"
tokio = { version = "=1.53.2", features = ["rt", "macros"] }
dirs = "=7.0.0"
