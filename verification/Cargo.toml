[package]
name = "unsafe_poke"
version = "0.1.0"
edition = "2021"
publish = false

[dependencies]
syn = "2"
synstructure = "0.13"

[dev-dependencies]
bincode = "1"
