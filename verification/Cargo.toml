[package]
name = "kernel_traps"
version = "0.1.0"
edition = "2021"
publish = false

[dependencies]
x86_64 = { version = "=0.14.13", default-features = false, features = ["instructions"] }
pic8259 = { version = "=0.10.4", default-features = false }
spin = "=0.9.9"
volatile = "=0.2.7"
lazy_static = "=1.5.1"
