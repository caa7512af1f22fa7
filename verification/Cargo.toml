[package]
name = "function_timer"
version = "0.1.0"
edition = "2021"
publish = false

[dependencies]
metrics = "*"
proc-macro2 = "*"
quote = "*"
syn = { version = "*", features = ["full", "fold"] }

[dev-dependencies]
metrics-util = "*"
