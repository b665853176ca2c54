[package]
name = "xpm"
version = "0.1.0"
edition = "2021"
publish = false

[dependencies]
alpm = "*"
async-trait = "0.1"
chrono = { version = "0.4", features = ["serde"] }
flate2 = "1"
libc = "0.2"
open = "5"
serde = { version = "1", features = ["derive"] }
serde_json = "1"
thiserror = "1"
tokio = { version = "1", features = ["rt-multi-thread"] }
tracing = "0.1"
tracing-subscriber = "0.3"
