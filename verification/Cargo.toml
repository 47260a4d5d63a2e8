[package]
name = "tiliqua_fw"
version = "0.1.0"
edition = "2021"
publish = false

[dependencies]
heapless = "0.8"
fatfs = "*"
embedded-storage = "0.3"
mos6502 = "*"
critical-section = { version = "1", features = ["std"] }
embedded-graphics = "0.8"
midi-types = "*"
midi-convert = "*"
