[package]
name = "tmp_plan"
version = "0.1.0"
edition = "2021"
publish = false

[dependencies]
bdk_chain = "*"
bitcoin = "0.32"
miniscript = "12"
