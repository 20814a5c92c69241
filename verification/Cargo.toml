[package]
name = "inx_types"
version = "0.1.0"
edition = "2021"
publish = false

[dependencies]
bee-block = "=1.0.1"
packable = "=0.6.2"
