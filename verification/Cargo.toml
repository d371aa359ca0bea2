[package]
name = "warnings"
version = "0.1.0"
edition = "2021"
publish = false

[dependencies]
pin-project = "1"
proc-macro2 = "1"
quote = "1"
syn = { version = "2", features = ["full", "visit", "visit-mut"] }
tracing = "0.1"
