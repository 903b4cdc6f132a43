[package]
name = "vl"
version = "0.1.0"
edition = "2021"
publish = false

[dependencies]
cast = "0.2"
futures = { version = "0.1", default-features = false }
stm32f100xx = "*"
cortex-m = "*"
r0 = "*"
