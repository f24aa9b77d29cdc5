[package]
name = "serial_flasher"
version = "0.1.0"
edition = "2021"
publish = false

[dependencies]
serialport = { version = "*", default-features = false }
serial_enumerator = "*"
config = { version = "*", default-features = false, features = ["toml"] }
