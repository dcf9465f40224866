[package]
name = "bidirectional_channel"
version = "0.1.0"
edition = "2021"
publish = false

[dependencies]
async-std = "1"
futures = "0.3"
async-trait = "0.1"
thiserror = "1"
