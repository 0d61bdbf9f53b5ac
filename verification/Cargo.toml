[package]
name = "onboard-controller"
version = "0.1.0"
edition = "2021"
publish = false

[dependencies]
ahrs = "=0.8.0"
nalgebra = "=0.34.2"
rppal = "=0.22.1"
joydev = "=0.3.1"
ctrlc = "=3.5.2"
