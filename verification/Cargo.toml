[package]
name = "sparkles"
version = "0.1.0"
edition = "2021"
publish = false

[dependencies]
termion = "*"
simplelog = "*"
log = "*"
libpulse-binding = "*"
libpulse-simple-binding = "*"
