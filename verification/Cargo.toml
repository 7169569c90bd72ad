[package]
name = "ailurus_kernel"
version = "0.1.0"
edition = "2021"
publish = false

[dependencies]
pc-keyboard = "=0.3.1"
spin = "=0.12.3"
lazy_static = "=1.5.1"
