[package]
name = "st7066u"
version = "0.1.0"
edition = "2021"
publish = false

[dependencies]
heapless = "0.8"
critical-section = "1"
esp-println = "*"
esp-backtrace = "*"
esp32-hal = "*"
