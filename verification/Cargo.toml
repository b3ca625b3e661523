[package]
name = "ios_drop"
version = "0.1.0"
edition = "2021"
publish = false

[dependencies]
smallvec = "=1.16.4"
objc = "=0.2.7"
log = "=0.4.35"
block = "0.1"
