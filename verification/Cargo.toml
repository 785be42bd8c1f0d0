[package]
name = "multipart-rfc7578"
version = "0.1.0"
edition = "2021"
publish = false

[dependencies]
actix-http = "3"
bytes = "1"
futures-core = "0.3"
futures-util = { version = "0.3", features = ["io"] }
http = "1"
hyper = "1"
mime = "0.3"
mime_guess = "2"
rand = { version = "0.8", features = ["small_rng"] }
thiserror = "1"
