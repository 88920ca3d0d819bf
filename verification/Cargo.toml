[package]
name = "gramr"
version = "0.1.0"
edition = "2021"
publish = false

[dependencies]
anyhow = "1"
clap = { version = "4", features = ["derive"] }
colored = "2"
inquire = "0.7"
thiserror = "1"
which = "6"
