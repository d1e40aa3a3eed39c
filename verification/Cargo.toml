[package]
name = "ascii_read"
version = "0.1.0"
edition = "2021"
publish = false

[dependencies]
ascii = "1.1"
thiserror = "1.0"
