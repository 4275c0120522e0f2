[package]
name = "matrix_animations"
version = "0.1.0"
edition = "2021"
publish = false

[dependencies]
smart-leds = "=0.3.0"
rand = { version = "=0.8.8", default-features = false }
adafruit-feather-rp2040 = "=0.6.0"
rp2040-hal = "=0.8.2"
cortex-m = "=0.7.10"
cortex-m-rt = "=0.7.7"
fugit = "=0.3.9"
lis3dh = "=0.4.4"
panic-halt = "=0.2.0"
ws2812-pio = "=0.6.0"
