[package]
name = "fs_err"
version = "2.4.0"
edition = "2021"
publish = false

[dependencies]
async-fs = "*"
futures-lite = "*"
