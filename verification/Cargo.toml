[package]
name = "estimator"
version = "0.1.0"
edition = "2021"
publish = false

[dependencies]
feos-core = "=0.10.1"
num-dual = "=0.14.2"
quantity = "=0.14.1"
