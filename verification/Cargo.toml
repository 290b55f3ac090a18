[package]
name = "pulse_bank"
version = "0.1.0"
edition = "2021"
publish = false

[dependencies]
gpiod = "*"
