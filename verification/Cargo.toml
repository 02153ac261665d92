[package]
name = "mediadeck"
version = "0.1.0"
edition = "2021"
publish = false

[dependencies]
chrono = "=0.4.45"
debouncr = "=0.2.2"
embedded-graphics = "=0.8.2"
embedded-hal = "=1.0.0"
futures = "=0.3.34"
linux-embedded-hal = "=0.5.0"
ssd1306 = "=0.10.0"
tokio = { version = "=1.53.2", features = ["rt-multi-thread", "macros", "sync", "time"] }
