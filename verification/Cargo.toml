[package]
name = "scupt_client"
version = "0.1.0"
edition = "2021"
publish = false

[dependencies]
tokio = { version = "1", features = ["sync", "time", "rt", "macros"] }
async-trait = "*"
scupt-util = "*"
