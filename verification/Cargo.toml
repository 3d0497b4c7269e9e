[package]
name = "sasl2-sys"
version = "0.1.0"
edition = "2021"
publish = false

[dependencies]
libc = "0.2"
duct = "0.13"
cc = "1.0"
pkg-config = "0.3"
