[package]
name = "bmp280"
version = "0.1.0"
edition = "2021"
publish = false

[dependencies]
cortex-m-rt = "=0.7.7"
defmt = "=1.2.0"
defmt-rtt = "=1.3.1"
embassy-executor = "=0.9.1"
embassy-futures = "=0.1.2"
embassy-time = "=0.5.1"
embedded-hal-async = "=1.0.0"
fixed = "=1.31.0"
panic-probe = { version = "=1.0.0", features = ["print-defmt"] }
