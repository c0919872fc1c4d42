[package]
name = "sensor_poller"
version = "0.1.0"
edition = "2021"
publish = false

[dependencies]
bme280 = "*"
embedded-hal-bus = "*"
ens160-aq = "*"
env_logger = "*"
linux-embedded-hal = "*"
log = "*"
telegraf = "*"
