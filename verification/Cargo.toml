[package]
name = "gonk_display"
version = "0.1.0"
edition = "2021"
publish = false

[dependencies]
libc = "0.2"
errno = "0.3"
euclid = "0.22"
