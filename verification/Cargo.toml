[package]
name = "wycheproof"
version = "0.1.0"
edition = "2021"
publish = false

[dependencies]
data-encoding = "2"
num-bigint = "0.4"
serde_json = "1"
