[package]
name = "smov"
version = "0.1.0"
edition = "2021"
publish = false

[dependencies]
serialport = { version = "3.3", default-features = false }
structopt = "0.3"
