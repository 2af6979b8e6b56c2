[package]
name = "operator_log"
version = "0.1.0"
edition = "2021"
publish = false

[dependencies]
warg-protocol = "=0.1.0"
warg-crypto = "=0.1.0"
warg-protobuf = "=0.1.0"
prost = "=0.11.9"
sync-unsafe-cell = "=0.1.1"
