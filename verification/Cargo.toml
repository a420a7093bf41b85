[package]
name = "rwa_token"
version = "0.1.0"
edition = "2021"
publish = false

[dependencies]
soroban-sdk = "*"
admin-sep = "*"
