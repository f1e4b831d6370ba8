[package]
name = "filehost"
version = "0.1.0"
edition = "2021"
publish = false

[dependencies]
argh = "*"
tiny_http = "*"
