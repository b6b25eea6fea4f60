[package]
name = "pico_clock_green"
version = "0.1.0"
edition = "2021"
publish = false

[dependencies]
chrono = { version = "=0.4.45", default-features = false }
cortex-m-rt = "=0.7.7"
critical-section = "=1.2.0"
defmt = "=1.2.0"
defmt-rtt = "=1.3.1"
ds323x = "=0.7.0"
embassy-executor = { version = "=0.10.0", features = ["platform-std", "executor-thread"] }
embassy-futures = "=0.1.2"
embassy-rp = { version = "=0.10.0", features = ["rp2040"] }
embassy-sync = "=0.8.0"
embassy-time = "=0.5.1"
heapless = "=0.8.0"
panic-probe = "=1.0.0"
rp-pico = "=0.9.0"
