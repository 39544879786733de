[package]
name = "awos"
version = "0.1.0"
edition = "2021"
publish = false

[dependencies]
uefi = { version = "*", features = ["alloc", "logger", "global_allocator"] }
log = "0.4"
