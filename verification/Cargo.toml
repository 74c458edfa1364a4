[package]
name = "longport-candlesticks"
version = "0.1.0"
edition = "2021"
publish = false

[dependencies]
time = "0.3"
time-tz = "2"
num-traits = "0.2"
