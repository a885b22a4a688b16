[package]
name = "uring_sqe"
version = "0.1.0"
edition = "2021"
publish = false

[dependencies]
bitflags = "1.3"
libc = "0.2"
uring-sys = "*"
