[package]
name = "flash_benchmark"
version = "0.1.0"
edition = "2021"
publish = false

[dependencies]
clap = { version = "4", features = ["derive"] }
espflash = { version = "*", features = ["cli"] }
log = "0.4"
md-5 = "*"
