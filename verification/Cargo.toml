[package]
name = "bt_le_central"
version = "0.1.0"
edition = "2021"
publish = false

[dependencies]
failure = "0.1"
futures = "0.3"
parking_lot = "0.12"
