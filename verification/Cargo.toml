[package]
name = "ws_tunnel"
version = "0.1.0"
edition = "2021"
publish = false

[dependencies]
anyhow = "1"
async-trait = "0.1"
bytes = "1"
futures = "0.3"
http = "1"
rustls = { version = "0.23", default-features = false, features = ["ring", "std"] }
socket2 = "0.5"
tokio = { version = "1", features = ["net", "rt", "macros", "io-util"] }
tokio-rustls = { version = "0.26", default-features = false, features = ["ring"] }
tokio-websockets = { version = "0.8", features = ["client", "server", "ring", "fastrand", "rustls-webpki-roots"] }
tracing = "0.1"
url = "2"
zerocopy = "0.7"
