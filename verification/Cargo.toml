[package]
name = "ylong_https_proxy"
version = "1.0.0"
edition = "2021"
publish = false

[dependencies]
url = "2"
base64 = "0.22"
http = "1"
tokio = { version = "1", features = ["rt-multi-thread", "macros", "net", "io-util", "time", "sync"] }
openssl = "0.10"
tokio-openssl = "0.6"
rustls = { version = "0.23", default-features = false, features = ["ring", "std", "tls12", "logging"] }
tokio-rustls = { version = "0.26", default-features = false, features = ["ring", "tls12", "logging"] }
webpki-roots = "0.26"
async-trait = "0.1"
tracing = "0.1"
thiserror = "1"
