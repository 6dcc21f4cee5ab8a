[package]
name = "rust_pcie_tlp"
version = "0.1.0"
edition = "2021"
publish = false

[dependencies]
byteorder = "1"
