[package]
name = "blinky"
version = "0.1.0"
edition = "2021"
publish = false

[dependencies]
cortex-m = "=0.7.9"
stm32f1 = { version = "*", features = ["stm32f103"] }
