[package]
name = "pippo"
version = "0.1.0"
edition = "2021"
publish = false

[dependencies]
anyhow = "=1.0.104"
chrono = "=0.4.45"
embedded-graphics = "=0.8.2"
embedded-svc = "0.28"
esp-idf-hal = "0.45"
esp-idf-svc = "0.51"
log = "=0.4.34"
serde_json = "=1.0.154"
ssd1306 = "=0.10.0"
