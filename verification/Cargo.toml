[package]
name = "phalcom"
version = "0.1.0"
edition = "2021"
publish = false

[dependencies]
indexmap = "2"
anyhow = "1"
clap = { version = "4", features = ["derive"] }
thiserror = "1"
tracing = "0.1"
tracing-subscriber = "0.3"
color-print = "0.3"
lazy_static = "1"
logos = "*"
lalrpop-util = "*"
