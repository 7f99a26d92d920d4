[package]
name = "rust_http_proxy"
version = "0.1.0"
edition = "2021"
publish = false

[dependencies]
base64 = "=0.22.1"
rand = "=0.9.5"
ipnetwork = "=0.21.1"
clap = { version = "=4.6.7", features = ["derive"] }
tokio = { version = "=1.53.2", features = ["rt-multi-thread", "net", "io-util", "macros", "time"] }
hyper = { version = "=1.12.0", features = ["http1", "http2", "server", "client"] }
hyper-util = { version = "=0.1.21", features = ["server", "client", "client-legacy", "http1", "http2", "tokio"] }
hyper-rustls = { version = "0.27", default-features = false, features = ["http1", "http2", "webpki-tokio", "ring", "tls12"] }
http = "=1.5.0"
http-body-util = "=0.1.5"
bytes = "=1.12.1"
log = "=0.4.34"
env_logger = "=0.11.11"
