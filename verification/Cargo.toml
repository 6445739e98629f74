[package]
name = "core_host"
version = "0.1.0"
edition = "2021"
publish = false

[dependencies]
anyhow = "1"
directories = "*"
libloading = "0.8"
log = "0.4"
simplelog = "*"
