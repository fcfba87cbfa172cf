[package]
name = "hello-world"
version = "0.1.0"
edition = "2021"
publish = false

[dependencies]
hostname = "0.4"
rocket = "0.5"
