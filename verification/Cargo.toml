[package]
name = "lpc8xx_hal"
version = "0.1.0"
edition = "2021"
publish = false

[dependencies]
embedded-hal = { version = "0.2", features = ["unproven"] }
lpc82x-pac = "*"
lpc845-pac = "*"
