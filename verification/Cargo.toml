[package]
name = "atmega32u4_usb"
version = "0.1.0"
edition = "2021"
publish = false

[dependencies]
avr-device = { version = "*", features = ["atmega32u4"] }
usb-device = "*"
