[package]
name = "search_bench"
version = "0.1.0"
edition = "2021"
publish = false

[dependencies]
rand = "0.8"
sysinfo = "0.30"
chrono = "0.4"
