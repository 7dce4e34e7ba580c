[package]
name = "inu_core"
version = "0.1.0"
edition = "2021"
publish = false

[dependencies]
embedded-svc = "0.28"
esp-idf-hal = "0.44"
esp-idf-svc = "0.49"
heapless = "=0.8.0"
log = "=0.4.34"
serde_json = "=1.0.154"
