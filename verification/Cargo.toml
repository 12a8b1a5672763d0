[package]
name = "libcryptsetup_rs"
version = "0.1.0"
edition = "2021"
publish = false

[dependencies]
either = "1"
libc = "0.2"
serde_json = "1"
uuid = "0.7"
