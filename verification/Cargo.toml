[package]
name = "frontdoor"
version = "0.1.0"
edition = "2021"
publish = false

[dependencies]
base64 = "*"
bytes = "*"
dashmap = "*"
futures-util = "*"
http-body-util = "*"
hyper = { version = "*", features = ["http1", "http2", "server"] }
hyper-util = { version = "*", features = ["tokio"] }
rustls = "*"
sha1 = "*"
tokio = { version = "*", features = ["rt", "rt-multi-thread", "net", "time", "macros", "io-util"] }
tokio-rustls = "*"
tokio-tungstenite = "*"
