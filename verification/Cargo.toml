[package]
name = "zmq2"
version = "0.1.0"
edition = "2021"
publish = false

[dependencies]
libc = "0.2"
zmq-sys = "0.12"
