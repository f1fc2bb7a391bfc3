[package]
name = "nomikai_session"
version = "0.1.0"
edition = "2021"
publish = false

[dependencies]
anyhow = "1"
flutter_rust_bridge = "2"
futures = "0.3"
libp2p = { version = "*", features = ["tokio", "gossipsub", "mdns", "noise", "macros", "tcp", "yamux"] }
quinn = "0.11"
rcgen = "0.12"
rustls = { version = "0.23", default-features = false, features = ["ring", "std"] }
serde = { version = "1", features = ["derive"] }
serde_json = "1"
tokio = { version = "1", features = ["full"] }
