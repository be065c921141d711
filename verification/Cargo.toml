[package]
name = "jpegxl-rs"
version = "0.1.0"
edition = "2021"
publish = false

[dependencies]
byteorder = "1"
half = "2"
thiserror = "2"
