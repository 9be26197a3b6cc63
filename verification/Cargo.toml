[package]
name = "keepkey"
version = "0.1.0"
edition = "2021"
publish = false

[dependencies]
hex = "0.4"
embedded-graphics = "*"
embedded-text = "*"
embedded-layout = "*"
usb-device = "*"
usbd-webusb = "*"
