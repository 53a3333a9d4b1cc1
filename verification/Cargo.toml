[package]
name = "trajectory"
version = "0.1.0"
edition = "2021"
publish = false

[dependencies]
csv = "1"
dotenvy = "0.15"
