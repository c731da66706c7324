[package]
name = "bare_metal"
version = "0.1.0"
edition = "2021"
publish = false

[dependencies]
pc-keyboard = "*"
lscpu = "*"
x86_64 = "*"
pic8259 = "*"
vga = "*"
spin = "*"
lazy_static = "*"
