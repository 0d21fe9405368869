[package]
name = "unisock"
version = "0.1.0"
edition = "2021"
publish = false

[dependencies]
ahash = "0.8"
async-io = "2"
async-tungstenite = "*"
futures-lite = "2"
futures-sink = "0.3"
scc = "2"
socket2 = "0.5"
