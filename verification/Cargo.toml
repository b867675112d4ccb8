[package]
name = "bencher_core"
version = "0.1.0"
edition = "2021"
publish = false

[dependencies]
uuid = { version = "1", features = ["v4"] }
http = "1"
clap = { version = "4", features = ["derive"] }
camino = "1"
url = "2"
derive_more = "0.99"
async-trait = "0.1"
