[package]
name = "ble_advertising"
version = "0.1.0"
edition = "2021"
publish = false

[dependencies]
esp-alloc = "0.6"
esp-backtrace = { version = "0.15", features = ["esp32c3", "panic-handler", "exception-handler", "println"] }
esp-hal = { version = "0.23", features = ["esp32c3", "unstable"] }
esp-println = { version = "0.13", features = ["esp32c3", "log"] }
esp-wifi = { version = "0.12", features = ["esp32c3", "ble"] }
