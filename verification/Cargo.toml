[package]
name = "opentelemetry-honeycomb"
version = "0.1.0"
edition = "2021"
publish = false

[dependencies]
async-channel = "*"
async-std = "1"
async-trait = "0.1"
chrono = "0.4"
derivative = "2"
futures = "0.3"
hazy = "*"
libhoney-rust = "*"
log = "0.4"
opentelemetry = "0.17"
serde_json = "1"
thiserror = "1"
