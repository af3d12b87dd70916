[package]
name = "mathie"
version = "0.1.0"
edition = "2021"
publish = false

[dependencies]
num-traits = "0.2"
serde = "1"
euclid = "0.22"
