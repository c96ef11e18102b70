[package]
name = "cheese_test"
version = "0.1.0"
edition = "2021"
publish = false

[dependencies]
ratatui = { version = "*", default-features = false }
heapless = "*"
mousefood = "*"
ssd1306 = "*"
embedded-dht-rs = { version = "*", features = ["dht11"] }
defmt = "*"
esp-hal = { version = "*", features = ["esp32", "unstable"] }
esp-alloc = "*"
esp-println = { version = "*", features = ["esp32"] }
esp-bootloader-esp-idf = { version = "*", features = ["esp32"] }
