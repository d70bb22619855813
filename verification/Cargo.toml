[package]
name = "psa_can"
version = "0.1.0"
edition = "2021"
publish = false

[dependencies]
byteorder = "1"
heapless = "0.8"
time = "0.3"
