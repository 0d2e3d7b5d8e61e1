[package]
name = "gbemu-rs"
version = "0.1.0"
edition = "2021"
publish = false

[dependencies]
parse_int = "0.6"
rustyline = "10"
minifb = "0.24"
winit = "0.27"
pixels = "0.11"
