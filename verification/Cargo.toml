[package]
name = "gameslab_mcu"
version = "0.1.0"
edition = "2021"
publish = false

[dependencies]
bbqueue = "=0.4.12"
cortex-m = "=0.6.7"
cortex-m-rtfm = "=0.5.3"
embedded-hal = "=0.2.7"
panic-halt = "=0.2.0"
stm32l0xx-hal = { version = "=0.6.2", features = ["stm32l0x3", "io-STM32L071", "rt", "stm32-usbd"] }
usb-device = "=0.2.9"
usbd-serial = "=0.1.1"
