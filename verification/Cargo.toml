[package]
name = "heatbed_controller"
version = "0.1.0"
edition = "2021"
publish = false

[dependencies]
byteorder = "1"
num_enum = "0.5"
biquad = "0.4"
anyhow = "1"
log = "0.4"
embedded-hal = "0.2"
embedded-graphics = "0.7"
st7789 = "0.6"
display-interface-spi = "0.4"
epd-waveshare = "0.5"
embedded-svc = "*"
esp-idf-sys = "*"
esp-idf-hal = "*"
esp-idf-svc = "*"
