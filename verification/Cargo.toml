[package]
name = "os"
version = "0.1.0"
edition = "2021"
publish = false

[dependencies]
pc-keyboard = "=0.7.0"
x86_64 = "0.15"
pic8259 = "=0.10.4"
volatile = "=0.2.7"
spin = "=0.5.2"
lazy_static = "=1.5.1"
