[package]
name = "appguard_agent"
version = "0.1.0"
edition = "2021"
publish = false

[dependencies]
qstring = "*"
nullnet-libtoken = "*"
tokio = { version = "*", features = ["rt", "sync", "time", "macros"] }
