[package]
name = "diffharness"
version = "0.1.0"
edition = "2021"
publish = false

[dependencies]
cc = "1"
libfuzzer-sys = "0.4"
