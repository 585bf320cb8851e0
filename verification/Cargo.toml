[package]
name = "gossip_app"
version = "0.1.0"
edition = "2021"
publish = false

[dependencies]
nostr-types = "0.4.0"
time = { version = "0.3", features = ["formatting"] }
tokio = { version = "1", features = ["sync", "rt-multi-thread", "time", "macros"] }
tracing = "0.1"
tracing-subscriber = { version = "0.3", features = ["env-filter"] }
