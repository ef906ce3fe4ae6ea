[package]
name = "nu_command"
version = "0.1.0"
edition = "2021"
publish = false

[dependencies]
num-traits = "0.2"
nu-protocol = "0.67"
nu-engine = "0.67"
