[package]
name = "polled_tls"
version = "0.1.0"
edition = "2021"
publish = false

[dependencies]
rustls = "=0.21.12"
webpki-roots = "=0.25.4"

[dev-dependencies]
rcgen = "*"
