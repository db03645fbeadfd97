[package]
name = "mc_transpiler"
version = "0.1.0"
edition = "2021"
publish = false

[dependencies]
rand = "0.8"
anyhow = "1"
clap = { version = "4", features = ["derive"] }
crossterm = "0.28"
libloading = "0.8"
