[package]
name = "blinky"
version = "0.1.0"
edition = "2021"
publish = false

[dependencies]
stm32f1 = { version = "0.15", features = ["stm32f107"] }
