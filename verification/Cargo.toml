[package]
name = "rusty_visuals"
version = "0.1.0"
edition = "2021"
publish = false

[dependencies]
rand = "=0.7.3"
nannou = "=0.18.1"
chrono = "0.4"
