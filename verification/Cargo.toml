[package]
name = "replicator"
version = "0.1.0"
edition = "2021"
publish = false

[dependencies]
hypercore-protocol = "*"
hypercore = "*"
async-std = "*"
futures = "*"
anyhow = "*"
log = "*"
