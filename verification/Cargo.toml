[package]
name = "proxy_bridge"
version = "0.1.0"
edition = "2021"
publish = false

[dependencies]
httparse = "1"
log = "0.4"
mimalloc = "*"
serde = { version = "1", features = ["derive"] }
serde_urlencoded = "0.7"
shadowsocks = "*"
time = { version = "0.3", features = ["formatting"] }
tokio = { version = "1", features = ["io-util", "macros", "net", "rt-multi-thread", "time"] }
tracing-subscriber = { version = "0.3", features = ["env-filter", "local-time", "time"] }
