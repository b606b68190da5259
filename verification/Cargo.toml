[package]
name = "capstdext"
version = "0.1.0"
edition = "2021"
publish = false

[dependencies]
cap-std = "*"
cap-std-ext = "*"
openat = "*"
