[package]
name = "vgrs"
version = "0.1.0"
edition = "2021"
publish = false

[dependencies]
bitvec = "=1.1.1"
heapless = "=0.8.0"
stm32l0xx-hal = { version = "=0.10.0", features = ["mcu-STM32L072CBTx", "rt"] }
ssd1306 = "=0.7.1"
embedded-time = "=0.12.1"
rtt-target = { version = "=0.3.1", features = ["cortex-m"] }
cortex-m-rt = "=0.7.7"
panic-halt = "=0.2.0"
