[package]
name = "validation_tracer"
version = "0.1.0"
edition = "2021"
publish = false

[dependencies]
hex = "0.4.3"
zk_evm = "=0.133.0"
sha3 = "0.10"
