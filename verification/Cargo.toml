[package]
name = "wheeldash"
version = "0.1.0"
edition = "2021"
publish = false

[dependencies]
evdev = "*"
terminal_size = "*"
argopt = "*"
