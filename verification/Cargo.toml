[package]
name = "oclhost"
version = "0.1.0"
edition = "2021"
publish = false

[dependencies]
anyhow = "*"
opencl3 = "*"
rspirv = "*"
