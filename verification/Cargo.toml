[package]
name = "stm32_adc"
version = "0.1.0"
edition = "2021"
publish = false

[dependencies]
embassy-hal-internal = "0.2.0"
embassy-sync = "0.6"
embedded-hal = "0.2.7"
