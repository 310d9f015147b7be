[package]
name = "para_unlock"
version = "0.1.0"
edition = "2021"
publish = false

[dependencies]
subxt = "*"
hex = "*"
argh = "*"
tokio = { version = "*", features = ["rt-multi-thread", "macros"] }
