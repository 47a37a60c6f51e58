[package]
name = "firmware"
version = "0.1.0"
edition = "2021"
publish = false

[dependencies]
embassy-time = { version = "=0.4.0", features = ["std"] }
embassy-sync = "=0.6.2"
embassy-futures = "=0.1.2"
embassy-executor = "=0.7.0"
micromath = "=2.1.0"
log = "=0.4.34"
esp-hal = { version = "=1.0.0-beta.0", features = ["esp32c6", "unstable"] }
esp-hal-embassy = { version = "=0.7.0", features = ["esp32c6"] }
esp-alloc = "=0.7.0"
esp-backtrace = { version = "=0.15.1", features = ["esp32c6"] }
esp-println = { version = "=0.13.1", features = ["esp32c6"] }
