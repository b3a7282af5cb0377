[package]
name = "p2p_coordination"
version = "0.1.0"
edition = "2021"
publish = false

[dependencies]
anyhow = "1"
libp2p = { version = "*", default-features = false, features = ["request-response"] }
tokio = { version = "1", default-features = false, features = ["sync", "macros"] }
