[package]
name = "site_builder"
version = "0.1.0"
edition = "2021"
publish = false

[dependencies]
chrono = "=0.4.45"
filetime = "=0.2.29"
html = "=0.6.3"
html-sys = "=0.4.3"
