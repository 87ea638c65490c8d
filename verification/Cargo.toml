[package]
name = "led_preview"
version = "0.1.0"
edition = "2021"
publish = false

[dependencies]
smart_led_effects = "*"
gtk4 = "*"
lazy_static = "1"
