[package]
name = "tx_watch"
version = "0.1.0"
edition = "2021"
publish = false

[dependencies]
futures = "0.3"
parity-scale-codec = "3"
