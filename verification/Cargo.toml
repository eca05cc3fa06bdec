[package]
name = "rtl_tcp"
version = "0.1.0"
edition = "2021"
publish = false

[dependencies]
futures = "0.3"
num-complex = "0.4"
tokio = { version = "1", default-features = false, features = ["sync"] }
