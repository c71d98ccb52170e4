[package]
name = "roboclaw_panel"
version = "0.1.0"
edition = "2021"
publish = false

[dependencies]
roboclaw = "0.1.0"
serialport = "*"
