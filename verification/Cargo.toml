[package]
name = "atlas_controller"
version = "0.1.0"
edition = "2021"
publish = false

[dependencies]
embassy-executor = "=0.10.0"
embassy-net = { version = "=0.9.1", features = ["udp", "proto-ipv4", "medium-ethernet"] }
embassy-sync = "=0.8.0"
embassy-time = { version = "=0.5.1", features = ["tick-hz-1_000_000"] }
embedded-hal-async = "=1.0.0"
embedded-io-async = "=0.7.0"
esp-alloc = "=0.10.0"
esp-backtrace = { version = "=0.19.0", features = ["esp32", "panic-handler", "println"] }
esp-hal = { version = "=1.1.2", features = ["esp32", "unstable"] }
esp-println = { version = "=0.17.0", features = ["esp32", "log-04"] }
esp-radio = { version = "=0.18.0", features = ["esp32", "wifi"] }
esp-rtos = { version = "=0.3.0", features = ["esp32", "embassy", "esp-radio"] }
libm = "=0.2.16"
log = "=0.4.35"
static_cell = "=2.1.1"
