[package]
name = "unixfs_cat"
version = "0.1.0"
edition = "2021"
publish = false

[dependencies]
ipfs-unixfs = "=0.2.0"
cid = "=0.5.1"
multihash = "=0.11.4"
futures = "=0.3.34"
async-stream = "=0.3.6"
