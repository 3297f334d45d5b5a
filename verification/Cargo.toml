[package]
name = "pci_info"
version = "0.1.0"
edition = "2021"

[dependencies]
libc = "0.2"
core-foundation = "0.9"
