[package]
name = "indicators"
version = "0.1.0"
edition = "2021"
publish = false

[dependencies]
const_soft_float = "=0.1.4"
ndarray = "=0.17.2"
serde_json = "=1.0.151"
