[package]
name = "libjuno"
version = "0.1.0"
edition = "2021"
publish = false

[dependencies]
pest = "2"
miette = "7"
