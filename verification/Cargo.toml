[package]
name = "plonky"
version = "0.1.0"
edition = "2021"
publish = false

[dependencies]
anyhow = "*"
franklin-crypto = "=0.1.0"
log = "*"
num-bigint = "*"
num-traits = "*"
serde = "*"
serde_json = "*"
