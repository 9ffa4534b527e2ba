[package]
name = "macros"
version = "0.1.0"
edition = "2021"
publish = false

[dependencies]
enigo = { version = "*", features = ["serde"] }
serde = { version = "1", features = ["derive"] }
slotmap = "1"
tracing = "0.1"
tracing-log = "0.2"
tracing-subscriber = "0.3"
