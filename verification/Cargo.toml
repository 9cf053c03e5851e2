[package]
name = "isomech"
version = "0.1.0"
edition = "2021"
publish = false

[dependencies]
bigdecimal = "0.4"
dashmap = "5.5"
num-traits = "0.2"
once_cell = "1"
