[package]
name = "rrg"
version = "0.1.0"
edition = "2021"
publish = false

[dependencies]
fleetspeak = "=0.1.3"
humantime = "=2.4.0"
log = "=0.4.34"
simplelog = "0.7"
structopt = "=0.3.26"
structopt-derive = "=0.4.18"
