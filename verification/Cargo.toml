[package]
name = "hypercraft"
version = "0.1.0"
edition = "2021"
publish = false

[dependencies]
gdbstub = "=0.7.10"
gdbstub_arch = "=0.3.3"
x86_64 = { version = "=0.15.5", default-features = false }
