[package]
name = "datemon"
version = "0.1.0"
edition = "2021"
publish = false

[dependencies]
chrono = "0.4"
log = "0.4"
stderrlog = "*"
structopt = "0.3"
