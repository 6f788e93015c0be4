[package]
name = "uwb_clock_tracker"
version = "0.1.0"
edition = "2021"
publish = false

[dependencies]
rustc_apfloat = "*"
clap = "*"
csv = "*"
