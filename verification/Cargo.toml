[package]
name = "tls_client_core"
version = "0.1.0"
edition = "2021"
publish = false

[dependencies]
ring = "0.17"
rustls-pki-types = "1"
