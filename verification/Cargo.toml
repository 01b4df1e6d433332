[package]
name = "raw_speed"
version = "0.1.0"
edition = "2021"
publish = false

[dependencies]
humansize = "1.1"
clap = { version = "4", features = ["derive"] }
console = "0.15"
crossbeam = "0.8"
