[package]
name = "spi_driver"
version = "0.1.0"
edition = "2021"
publish = false

[dependencies]
nb = "=0.1.3"
embedded-hal = "=0.2.7"
nrf51 = "=0.9.0"
