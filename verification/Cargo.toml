[package]
name = "ntr_stream"
version = "0.1.0"
edition = "2021"
publish = false

[dependencies]
bus = "2"
byteorder = "1"
protocol = "*"
clap = "2"
futures = "0.1"
hyper = "0.11"
