[package]
name = "termbuf"
version = "0.1.0"
edition = "2021"
publish = false

[dependencies]
kernel32-sys = "0.2"
winapi = "0.2"
