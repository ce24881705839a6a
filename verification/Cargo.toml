[package]
name = "emissary_c"
version = "0.1.0"
edition = "2021"
publish = false

[dependencies]
emissary-core = "*"
emissary-util = "*"
tokio = { version = "*", features = ["rt-multi-thread", "sync", "macros"] }
