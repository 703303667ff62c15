[package]
name = "gravity_utils"
version = "0.1.0"
edition = "2021"
publish = false

[dependencies]
clarity = "=1.7.0"
deep_space = "=2.33.1"
num-bigint = "=0.5.1"
thiserror = "=2.0.21"
tokio = { version = "=1.54.1", features = ["rt", "time"] }
tonic = "=0.12.3"
web30 = "=1.15.0"
