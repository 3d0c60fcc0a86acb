[package]
name = "btpc"
version = "0.1.0"
edition = "2021"
publish = false

[dependencies]
noodles-bed = "*"
parquet = { version = "*", default-features = false }

[dev-dependencies]
bytes = "1"
