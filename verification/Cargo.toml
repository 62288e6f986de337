[package]
name = "singletact_programing_jig"
version = "0.1.0"
edition = "2021"
publish = false

[dependencies]
fastrand = "2"
heapless = "0.8"
smart-leds = "0.4"
embassy-time = { version = "*", features = ["std"] }
embassy-futures = "0.1"
embassy-sync = "*"
embassy-executor = "*"
futures = { version = "0.3", default-features = false }
static_cell = "2"
defmt = "*"
ufmt = "0.2"
embedded-graphics = "0.8"
ssd1306 = { version = "*", features = ["async"] }
