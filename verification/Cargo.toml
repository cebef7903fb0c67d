[package]
name = "rusty_razorpay"
version = "0.1.0"
edition = "2021"
publish = false

[dependencies]
ring = "=0.17.14"
data-encoding = "=2.11.1"
reqwest = { version = "=0.13.5", default-features = false, features = ["query"] }
