[package]
name = "signal_router"
version = "0.4.1"
edition = "2021"
publish = false

[dependencies]
rkyv = "0.8"
thiserror = "2"
