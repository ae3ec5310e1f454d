[package]
name = "blademaster"
version = "0.1.0"
edition = "2021"
publish = false

[dependencies]
legion = "0.2"
termion = "=1.5.6"
tui = "=0.6.2"
