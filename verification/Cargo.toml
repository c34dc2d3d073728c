[package]
name = "rust-maven-proxy"
version = "0.1.0"
edition = "2021"
publish = false

[dependencies]
hyper = { version = "0.14", features = ["client", "server", "http1", "http2", "tcp"] }
hyper-rustls = { version = "0.22" }
tokio = { version = "1", features = ["macros", "rt", "signal", "time"] }
futures-util = { version = "0.3" }
eyre = { version = "0.6" }
stable-eyre = { version = "0.2" }
log = { version = "0.4", features = ["serde"] }
simple_logger = { version = "1" }
ron = { version = "0.6" }
serde = { version = "1", features = ["derive"] }
url = { version = "2", features = ["serde"] }
