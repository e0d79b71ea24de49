[package]
name = "carbon_sensor"
version = "0.1.0"
edition = "2021"
publish = false

[dependencies]
crc_all = "*"
embedded-hal = "0.2"
nb = "1"
arrayvec = { version = "0.5", default-features = false }
embedded-graphics = "0.6"
epd-waveshare = "0.4"
nrf52840-hal = "0.12"
cortex-m-rt = "0.6"
defmt = "0.2"
