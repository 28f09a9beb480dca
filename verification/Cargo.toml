[package]
name = "adder_viz"
version = "0.1.0"
edition = "2021"
publish = false

[dependencies]
adder-codec-rs = "*"
rayon = "*"
tokio = { version = "*", features = ["rt-multi-thread", "time"] }
