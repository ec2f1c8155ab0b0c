[package]
name = "silicon"
version = "0.1.0"
edition = "2021"
publish = false

[dependencies]
embedded-hal = "1"
embedded-hal-bus = "*"
embedded-sdmmc = "*"
embedded-graphics = "*"
embedded-graphics-core = "*"
heapless = "*"
