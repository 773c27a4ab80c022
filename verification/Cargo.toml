[package]
name = "state"
version = "0.6.0"
edition = "2021"
publish = false

[dependencies]
seahash = "4"
static_assertions = "1"
