[package]
name = "kitty_media"
version = "0.1.0"
edition = "2021"
publish = false

[dependencies]
actix-files = "0.6"
actix-web = { version = "4", features = ["rustls-0_23"] }
dashmap = "6"
derive_more = { version = "2", features = ["display", "error", "from"] }
pyo3 = "0.27"
rustls = { version = "0.23", default-features = false, features = ["ring", "std", "tls12", "logging"] }
rustls-pki-types = { version = "1", features = ["std"] }
serde = { version = "1", features = ["derive"] }
tokio = { version = "1", features = ["rt", "sync", "macros"] }
tokio-stream = "0.1"
tracing = "0.1"
tracing-subscriber = { version = "0.3", features = ["env-filter", "fmt"] }
url = "2"

[dev-dependencies]
regex = "1"
