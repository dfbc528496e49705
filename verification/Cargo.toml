[package]
name = "pgx_utils"
version = "0.1.0"
edition = "2021"
publish = false

[dependencies]
syn = { version = "1.0", features = ["full", "extra-traits"] }
quote = "1.0"
proc-macro2 = "1.0"
eyre = "0.6"
tracing = "0.1"
