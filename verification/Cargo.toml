[package]
name = "arti-c"
version = "0.1.0"
edition = "2021"
publish = false

[dependencies]
async-trait = "=0.1.92"
futures = "=0.3.34"
socket2 = { version = "=0.6.5", features = ["all"] }
tokio = { version = "=1.54.1", features = ["full"] }
tokio-util = { version = "=0.7.20", features = ["compat"] }
tor-rtcompat = { version = "=0.46.0", default-features = false, features = ["tokio", "rustls"] }
tor-socksproto = { version = "=0.46.0", features = ["proxy-handshake"] }
tracing-subscriber = { version = "=0.3.23", features = ["env-filter"] }

[dev-dependencies]
rustls = { version = "0.23", default-features = false, features = ["ring", "std"] }
