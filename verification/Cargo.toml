[package]
name = "gssctx"
version = "0.1.0"
edition = "2021"
publish = false

[dependencies]
libgssapi-sys = "*"
parking_lot = "*"
