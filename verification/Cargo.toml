[package]
name = "protohandler"
version = "0.1.0"
edition = "2021"
publish = false

[dependencies]
clap = { version = "*", features = ["derive"] }
etcetera = "*"
log = "*"
resolve-path = "*"
serde = { version = "*", features = ["derive"] }
serde_yml = "*"
simplelog = "*"
thiserror = "*"
