[package]
name = "trapcore"
version = "0.1.0"
edition = "2021"
publish = false

[dependencies]
pc-keyboard = "0.7"
x86_64 = { version = "0.14", default-features = false, features = ["instructions"] }
pic8259 = "0.10"
spin = "0.9"
bootloader_api = "0.11"
ovmf-prebuilt = "0.1.0-alpha.1"
