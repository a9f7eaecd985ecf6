[package]
name = "bootstrap"
version = "0.1.0"
edition = "2021"
publish = false

[dependencies]
exec = "0.3"
log = "0.4"
simple_logger = "1"
