[package]
name = "tickradio"
version = "0.1.0"
edition = "2021"
publish = false

[dependencies]
critical-section = "=1.2.0"
defmt = "=1.2.0"
embedded-graphics = "=0.8.2"
ssd1306 = "=0.10.0"
static_cell = "=2.1.1"
esp-hal = { version = "*", features = ["esp32", "unstable"] }
esp-println = { version = "*", features = ["esp32", "log-04"] }
esp-backtrace = { version = "*", features = ["esp32", "println"] }
esp-bootloader-esp-idf = { version = "*", features = ["esp32"] }
esp-wifi-hal = { version = "=0.1.7", features = ["esp32"] }
