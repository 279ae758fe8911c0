[package]
name = "bane"
version = "0.1.0"
edition = "2021"
publish = false

[dependencies]
terminfo = "=0.2.4"
control-code = "=0.7.1"
termios = "=0.3.3"
libc = "=0.2.191"
crossbeam-channel = "=0.5.17"
lazy_static = "=1.5.1"
