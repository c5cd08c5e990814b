[package]
name = "signal_plots"
version = "0.1.0"
edition = "2021"
publish = false

[dependencies]
byteorder = "=1.5.0"
rand = "=0.10.3"
serde_json = { version = "=1.0.151", features = ["float_roundtrip"] }
