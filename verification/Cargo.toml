[package]
name = "sink_send"
version = "0.1.0"
edition = "2021"
publish = false

[dependencies]
futures-core = "=0.2.1"
futures-sink = "=0.2.1"
