[package]
name = "peernet"
version = "0.1.0"
edition = "2021"
publish = false

[dependencies]
libp2p = { version = "*", features = ["tokio", "tcp", "noise", "yamux", "gossipsub", "mdns", "kad", "macros", "ed25519"] }
tokio = { version = "*", features = ["rt-multi-thread", "macros", "sync", "signal", "time"] }
tokio-util = "*"
futures = "*"
