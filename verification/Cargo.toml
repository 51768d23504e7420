[package]
name = "qt_wrapper_generator"
version = "0.1.0"
edition = "2021"
publish = false

[dependencies]
num_cpus = "*"
