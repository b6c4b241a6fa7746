[package]
name = "bastor"
version = "0.1.0"
edition = "2021"
publish = false

[dependencies]
anyhow = "1"
async-trait = "0.1"
bastion = "0.4"
thiserror = "1"
