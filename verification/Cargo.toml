[package]
name = "clap_wrapper"
version = "0.1.0"
edition = "2021"
publish = false

[dependencies]
cc = "=1.11.1"
stdio-override = "=0.2.0"
