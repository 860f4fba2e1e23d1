[package]
name = "librasp"
version = "0.1.0"
edition = "2021"
publish = false

[dependencies]
anyhow = "1"
crossbeam = "0.8"
libc = "0.2"
log = "0.4"
procfs = "*"
regex = "1"
