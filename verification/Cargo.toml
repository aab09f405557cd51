[package]
name = "blkid"
version = "0.1.0"
edition = "2021"
publish = false

[dependencies]
blkid-sys = "*"
libc = "*"
