[package]
name = "sg200x-bsp"
version = "0.6.0"
edition = "2021"
publish = false

[dependencies]
tock-registers = "0.9"
log = "0.4"
