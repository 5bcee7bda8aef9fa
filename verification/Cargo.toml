[package]
name = "no_floating_promises"
version = "0.1.0"
edition = "2021"
publish = false
