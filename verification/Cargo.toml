[package]
name = "limiinal_core"
version = "0.1.0"
edition = "2021"
publish = false

[dependencies]
libp2p = { version = "*", features = ["ed25519", "tokio", "tcp", "noise", "yamux", "relay", "dcutr", "gossipsub", "identify", "ping", "quic", "dns", "macros"] }
tokio = { version = "*", features = ["rt-multi-thread", "macros", "io-util", "io-std", "time"] }
clap = { version = "*", features = ["derive"] }
futures = "*"
futures-timer = "*"
