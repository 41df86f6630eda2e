[package]
name = "hash_os"
version = "0.1.0"
edition = "2021"
publish = false

[dependencies]
pc-keyboard = "=0.9.0"
