[package]
name = "rxserver"
version = "0.1.0"
edition = "2021"
publish = false

[dependencies]
bytes = "1"
tokio = { version = "1", features = ["net", "io-util", "sync", "rt", "macros", "time"] }
tracing = "0.1"
log = "0.4"
serde = { version = "1", features = ["derive"] }
thiserror = "1"
anyhow = "1"
dirs = "5"
async-trait = "0.1"
