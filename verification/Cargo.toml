[package]
name = "rpc_dispatch"
version = "0.1.0"
edition = "2021"
publish = false

[dev-dependencies]
postcard = { version = "*", features = ["use-std"] }
