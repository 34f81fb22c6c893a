[package]
name = "flox_develop"
version = "0.1.0"
edition = "2021"
publish = false

[dependencies]
anyhow = "1"
bpaf = { version = "0.9", features = ["derive"] }
tempfile = "3"
thiserror = "2"
tracing = "0.1"
