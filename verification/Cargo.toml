[package]
name = "arena"
version = "0.1.0"
edition = "2021"
publish = false

[dependencies]
lazy_static = "*"
pic8259_simple = "*"
spin = "*"
x86 = "*"
