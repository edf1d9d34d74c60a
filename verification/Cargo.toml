[package]
name = "runnable"
version = "0.1.0"
edition = "2021"
publish = false

[dependencies]
futures = "0.3"
anyhow = "1"
async-process = "2"
smol = "2"
parking_lot = "0.12"
