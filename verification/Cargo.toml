[package]
name = "apib"
version = "0.1.0"
edition = "2021"
publish = false

[dependencies]
async-trait = "0.1"
clap = { version = "4", features = ["derive"] }
http-body-util = "0.1"
hyper = { version = "1", features = ["client", "server", "http1", "http2"] }
hyper-util = { version = "0.1", features = ["tokio"] }
openssl = "0.10"
rustls = "0.23"
rustls-native-certs = "0.7"
rustls-pemfile = "2"
rustls-pki-types = "1"
tokio = { version = "1", features = ["full"] }
tokio-rustls = "0.26"
url = "2"
