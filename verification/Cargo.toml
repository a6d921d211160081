[package]
name = "aht20_monitor"
version = "0.1.0"
edition = "2021"
publish = false

[dependencies]
cortex-m = "=0.7.9"
cortex-m-rt = "=0.7.7"
embedded-alloc = "=0.5.1"
panic-halt = "=0.2.0"
rtt-target = "=0.5.0"
stm32f1xx-hal = { version = "=0.10.0", features = ["stm32f103", "rt", "medium"] }
