[package]
name = "postkeeper"
version = "0.1.0"
edition = "2021"
publish = false

[dependencies]
clap = "2"
daemonize = "*"
lazy_static = "1"
log = "0.4"
milter = "*"
once_cell = "1"
rust-ini = "*"
simple_logger = "*"
