[package]
name = "resvg"
version = "0.1.0"
edition = "2021"
publish = false

[dependencies]
siphasher = "0.3"
base64 = "0.9"
pico-args = "0.3"
log = "0.4"
rgb = "0.8"
png = "0.16"
fontdb = "0.5"
strict-num = "0.1"
