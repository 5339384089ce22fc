[package]
name = "compute_worker"
version = "0.1.0"
edition = "2021"
publish = false

[dependencies]
libp2p = { version = "=0.53.2", features = ["ed25519", "floodsub", "mdns", "noise", "tcp", "yamux", "tokio", "macros"] }
base64 = "=0.23.1"
serde = { version = "=1.0.229", features = ["derive"] }
serde_json = "=1.0.151"
tokio = { version = "=1.53.2", features = ["rt-multi-thread", "macros", "sync", "time"] }
futures = "=0.3.34"
reqwest = { version = "=0.13.5", default-features = false, features = ["json"] }
rustc_apfloat = "=0.2.3"
ieee-apsqrt = "*"
