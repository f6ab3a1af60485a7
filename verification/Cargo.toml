[package]
name = "state_advance"
version = "0.1.0"
edition = "2021"
publish = false

[dependencies]
hex = "0.4"
clap = "2"
tokio = { version = "1", features = ["rt-multi-thread", "time", "macros"] }
