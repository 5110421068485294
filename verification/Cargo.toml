[package]
name = "input_capture"
version = "0.1.0"
edition = "2021"
publish = false

[dependencies]
microbit-v2 = "=0.16.0"
cortex-m = "=0.7.9"
cortex-m-rt = "=0.7.7"
rtt-target = "=0.6.2"
panic-rtt-target = "=0.2.0"
embedded-hal = "=1.0.0"
