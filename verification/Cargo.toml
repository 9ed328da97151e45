[package]
name = "hyper_rustls"
version = "0.1.0"
edition = "2021"
publish = false

[dependencies]
rustls-pki-types = "*"
http = "*"
rustls = { version = "*", default-features = false, features = ["ring", "logging", "std", "tls12"] }
tokio = { version = "*", features = ["net", "rt"] }
tokio-rustls = { version = "*", default-features = false, features = ["ring", "logging", "tls12"] }
futures-rustls = { version = "*", default-features = false, features = ["ring", "logging", "tls12"] }
smol = "*"
smol-hyper = "*"
hyper = "*"
hyper-util = { version = "*", features = ["tokio"] }
tower-service = "*"
tower-layer = "*"
