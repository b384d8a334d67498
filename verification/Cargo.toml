[package]
name = "arbhx_blocking"
version = "0.1.0"
edition = "2021"
publish = false

[dependencies]
arbhx-core = { version = "=3.1.0", features = ["blocking"] }
tokio = { version = "=1.54.1", default-features = false, features = ["rt", "io-util"] }
chrono = "=0.4.45"
futures-lite = "=2.6.1"
uuid = "=1.29.0"
