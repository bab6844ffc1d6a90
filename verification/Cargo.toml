[package]
name = "pingpong"
version = "0.1.0"
edition = "2021"
publish = false

[dependencies]
laminar = "=0.4.0"
crossbeam-channel = "=0.4.4"
