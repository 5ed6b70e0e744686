[package]
name = "libsql_driver"
version = "0.1.0"
edition = "2021"
publish = false

[dependencies]
libsql = "*"
neon = "1"
once_cell = "1"
tokio = { version = "1", features = ["rt-multi-thread"] }
tracing = "0.1"
tracing-subscriber = "0.3"
