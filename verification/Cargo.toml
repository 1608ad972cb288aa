[package]
name = "trillium_acme"
version = "0.1.0"
edition = "2021"
publish = false

[dependencies]
futures-lite = "=2.6.1"
rustls-acme = { version = "=0.15.4", default-features = false, features = ["ring", "tls12"] }
trillium = "=0.2.20"
trillium-server-common = "=0.5.2"

[dev-dependencies]
rcgen = "=0.14.10"
