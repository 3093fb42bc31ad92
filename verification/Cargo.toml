[package]
name = "storagehub"
version = "0.1.0"
edition = "2021"
publish = false

[dependencies]
anyhow = "*"
clap = { version = "*", features = ["derive"] }
log = "*"
parity-scale-codec = "*"
serde = { version = "*", features = ["derive"] }
sp-core = "*"
thiserror = "*"
tracing = "*"
