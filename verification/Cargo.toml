[package]
name = "weather_clock"
version = "0.1.0"
edition = "2021"
publish = false

[dependencies]
anyhow = "1"
chrono = "=0.4.45"
chrono-tz = "=0.10.4"
embedded-graphics = "=0.8.2"
embedded-layout = "=0.4.2"
embedded-svc = "0.28"
esp-idf-hal = "0.45"
esp-idf-svc = "0.51"
heapless = "=0.8.0"
log = "0.4"
qrcodegen = "=1.8.0"
serde = { version = "1", features = ["derive"] }
serde_json = "1"
ssd1306 = "=0.10.0"
u8g2-fonts = { version = "=0.8.0", features = ["embedded_graphics_textstyle"] }
