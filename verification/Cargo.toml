[package]
name = "bq2515x"
version = "0.1.0"
edition = "2021"
publish = false

[dependencies]
embedded-hal = "1"
embedded-hal-async = "1"
device-driver = "0.7"
bitvec = "1"
