[package]
name = "hhbc_id"
version = "0.1.0"
edition = "2021"
publish = false

[dependencies]
bumpalo = "~3.11"
libc = "0.2"
serde_json = "1"
