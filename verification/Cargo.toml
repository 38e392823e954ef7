[package]
name = "h5core"
version = "0.1.0"
edition = "2021"
publish = false

[dependencies]
parking_lot = "0.12"

[dev-dependencies]
regex = "1"
crossbeam-utils = "0.8"
