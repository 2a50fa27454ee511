[package]
name = "rustngo"
version = "0.1.0"
edition = "2021"
publish = false

[dependencies]
heapless = "=0.8.0"
embedded-sdmmc = "=0.7.0"
embedded-graphics = "=0.8.2"
st7567_rs = "=0.1.3"
embassy-stm32 = { version = "=0.6.0", features = ["stm32f103c8", "time-driver-any"] }
embassy-embedded-hal = "=0.6.0"
embassy-sync = "=0.8.0"
embassy-time = "=0.5.1"
defmt = "=1.2.0"
defmt-rtt = "=1.3.1"
panic-probe = "=1.0.0"
panic-halt = "=1.0.0"
cortex-m-rt = "=0.7.7"
