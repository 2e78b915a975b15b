[package]
name = "bark_core"
version = "0.1.0"
edition = "2021"
publish = false

[dependencies]
heapless = "=0.8.0"
log = "0.4"
bitflags = "2"
