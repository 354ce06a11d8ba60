[package]
name = "puzzle_vm"
version = "0.1.0"
edition = "2021"
publish = false

[dependencies]
log = "*"
simple-logging = "*"
