[package]
name = "iec104"
version = "0.1.0"
edition = "2021"
publish = false

[dependencies]
iec60870-5 = "*"
roboplc = "*"
rtsc = "*"
tracing = "*"
