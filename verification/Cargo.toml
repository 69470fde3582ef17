[package]
name = "chainrepute"
version = "0.1.0"
edition = "2021"
publish = false

[dependencies]
bs58 = "0.5"
soroban-sdk = "22"
ink = "5"
