[package]
name = "eb"
version = "0.1.0"
edition = "2021"
publish = false

[dependencies]
rand = "0.8"
clap = "3"
log = "0.4"
simple_logger = "*"
anyhow = "1"
thiserror = "1"
