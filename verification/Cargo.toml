[package]
name = "fvoci_http"
version = "0.1.0"
edition = "2021"
publish = false

[dependencies]
axum = "0.8"
axum-extra = { version = "0.10", features = ["cookie"] }
base64 = "0.22"
bytes = "1"
chrono = { version = "0.4", default-features = false, features = ["std", "clock"] }
futures-util = "0.3"
hex = "0.4"
rand = "0.9"
serde = { version = "1", features = ["derive"] }
serde_json = "1"
sha2 = "0.10"
tokio = { version = "1", features = ["sync", "time", "rt", "macros"] }
tower-http = { version = "0.6", features = ["trace"] }
tracing = "0.1"
url = "2"
uuid = "1"
