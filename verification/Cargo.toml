[package]
name = "led_counter"
version = "0.1.0"
edition = "2021"
publish = false

[dependencies]
cortex-m = "0.7"
cortex-m-rt = "0.7"
fugit = "0.3"
stm32f4xx-hal = { version = "0.14", features = ["stm32f411"] }
