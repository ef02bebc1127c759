[package]
name = "qcow2_header"
version = "0.1.0"
edition = "2021"
publish = false

[dependencies]
dotenvy = "0.15"
