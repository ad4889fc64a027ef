[package]
name = "unio_bang"
version = "0.1.0"
edition = "2021"
publish = false

[dependencies]
adafruit-feather-rp2040 = "=0.8.0"
cortex-m = "=0.7.9"
defmt = "=1.1.1"
defmt-rtt = "=1.3.0"
panic-probe = "=1.0.0"
pio = "=0.2.1"
pio-proc = "=0.2.2"
rp2040-hal = "=0.10.2"
rp2040-pac = "=0.6.0"
