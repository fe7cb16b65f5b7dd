[package]
name = "microprofile"
version = "0.2.1"
edition = "2021"
publish = false

[dependencies]
lazy_static = "1"
libc = "0.2"
vk-sys = "*"
winapi = "0.2"
