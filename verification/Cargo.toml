[package]
name = "node_flow"
version = "0.1.0"
edition = "2021"
publish = false

[dependencies]
async-lock = "3"
async-trait = "0.1"
futures-util = "0.3"
rand = "0.9"
tynm = "*"
