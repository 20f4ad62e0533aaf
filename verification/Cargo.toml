[package]
name = "rtlsdr-pure"
version = "0.1.0"
edition = "2021"
publish = false

[dependencies]
cross_usb = "*"
js-sys = "*"
