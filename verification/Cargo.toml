[package]
name = "breakout_common"
version = "0.1.0"
edition = "2021"
publish = false

[dependencies]
atsamd21g = "=0.12.0"
cortex-m = "=0.7.10"
cortex-m-rt = "=0.7.7"
sdl2 = "=0.38.0"
