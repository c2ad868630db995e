[package]
name = "swc_allocator"
version = "0.1.0"
edition = "2021"
publish = false

[dependencies]
allocator-api2 = "0.2"
bumpalo = "3"
