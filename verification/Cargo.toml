[package]
name = "frontend_im"
version = "0.1.0"
edition = "2021"
publish = false

[dependencies]
crossbeam-channel = "=0.5.17"
env_logger = "=0.11.11"
log = "=0.4.34"
pico-args = "=0.5.0"
