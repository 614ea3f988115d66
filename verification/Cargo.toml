[package]
name = "serial_bridge"
version = "0.1.0"
edition = "2021"
publish = false

[dependencies]
clap = { version = "4", features = ["derive"] }
color-eyre = "0.6"
ctrlc = "3"
dialoguer = "*"
notify = "*"
serialport = { version = "4", default-features = false }
