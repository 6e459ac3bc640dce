[package]
name = "websocket-lowlevel"
version = "0.1.0"
edition = "2021"
publish = false

[dependencies]
base64 = "0.13"
byteorder = "1"
bytes = "1"
futures = "0.3"
http = "0.2"
hyper = { version = "0.14", features = ["client", "http1", "tcp"] }
hyper-tls = "0.5"
rand = "0.8"
sha1 = "0.6"
tokio = { version = "1", features = ["rt", "net"] }
tokio-util = { version = "0.7", features = ["codec"] }
