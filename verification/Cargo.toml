[package]
name = "shift_haptics"
version = "0.1.0"
edition = "2021"
publish = false

[dependencies]
gilrs = "0.10"
