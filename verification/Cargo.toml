[package]
name = "boot_handoff"
version = "0.1.0"
edition = "2021"
publish = false

[dependencies]
cortex-m = { version = "0.7", features = ["critical-section-single-core"] }
cortex-m-rt = "0.7"
panic-halt = "*"
rtic = { version = "2", features = ["thumbv7-backend"] }
stm32f4xx-hal = { version = "*", features = ["stm32f411"] }
defmt = "*"
defmt-rtt = "*"
