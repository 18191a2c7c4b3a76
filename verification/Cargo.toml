[package]
name = "frtb_engine"
version = "0.1.0"
edition = "2021"
publish = false

[dependencies]
ndarray = "0.15"
serde_json = "1"
thiserror = "1"
