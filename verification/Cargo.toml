[package]
name = "mir_cfg"
version = "0.1.0"
edition = "2021"
publish = false

[dependencies]
elf = "0.0.10"
fallible-iterator = "0.2"
tempfile = "3"
