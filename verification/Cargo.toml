[package]
name = "smtp_delivery"
version = "0.1.0"
edition = "2021"
publish = false

[dependencies]
rand = "0.9"
smtp-proto = "*"
tokio = { version = "1", features = ["rt-multi-thread", "net", "io-util", "time", "macros"] }
