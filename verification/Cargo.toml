[package]
name = "rotary_knob"
version = "0.1.0"
edition = "2021"
publish = false

[dependencies]
rotary-encoder-hal = "0.5"
embedded-hal = "0.2"
esp-idf-hal = "0.40"
esp-idf-svc = "0.45"
esp-idf-sys = "0.32"
anyhow = "1"
log = "0.4"
once_cell = "1"
