[package]
name = "blackbox_rs"
version = "0.1.0"
edition = "2021"
publish = false

[dependencies]
cortex-m = "0.7"
embassy-stm32 = { version = "*", features = ["stm32h743xi", "unstable-pac", "exti", "time-driver-any"] }
embassy-time = "*"
embedded-graphics = "0.8"
embedded-hal = "1"
libm = "0.2"
stm32-fmc = "*"
