[package]
name = "flt_terminal"
version = "0.1.0"
edition = "2021"
publish = false

[dependencies]
base64 = "0.13"
crossterm = "0.25"
libc = "0.2"
