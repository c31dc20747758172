[package]
name = "ptv_departures"
version = "0.1.0"
edition = "2021"
publish = false

[dependencies]
chrono = "=0.4.26"
hmac-sha1 = "=0.2.2"
serde = { version = "*", features = ["derive"] }
reqwest = { version = "*", default-features = false, features = ["json", "rustls-tls"] }
tokio = { version = "*", features = ["macros", "rt"] }
lambda_runtime = "*"
config = "*"
