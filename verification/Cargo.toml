[package]
name = "lending"
version = "0.1.0"
edition = "2021"
publish = false

[dependencies]
rand = "0.8"
regex = "1"
prettytable-rs = "0.10"
chrono = "0.4"
thiserror = "1"
anyhow = "1"
