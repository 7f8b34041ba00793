[package]
name = "keymint_hal"
version = "0.1.0"
edition = "2021"
publish = false

[dependencies]
hex = "=0.4.3"
log = "0.4"
