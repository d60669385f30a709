[package]
name = "http_app"
version = "0.1.0"
edition = "2021"
publish = false

[dependencies]
anyhow = "1"
log = "0.4"
serde = { version = "1", features = ["derive"] }
serde_json = "1"
attohttpc = { version = "0.24", default-features = false, features = ["json"] }
mutex-trait = "0.2"
toml-cfg = "0.1"
bme280 = "0.4"
ssd1331 = "0.3"
embedded-graphics = "0.7"
embedded-hal = "=1.0.0-alpha.9"
embedded-svc = "0.24"
esp-idf-sys = "0.32"
esp-idf-hal = "0.40"
esp-idf-svc = "0.45"
