[package]
name = "mcp2517"
version = "0.1.0"
edition = "2021"
publish = false

[dependencies]
bytes = "1"
embedded-can = "0.4"
embedded-hal = "1"
embedded-time = "0.12"
critical-section = "1"
embedded-alloc = "0.6"
