[package]
name = "led_cycle"
version = "0.1.0"
edition = "2021"
publish = false

[dependencies]
cortex-m = "0.6"
cortex-m-rt = "0.6"
panic-semihosting = "0.5"
stm32f1xx-hal = { version = "0.6", features = ["stm32f103"] }
