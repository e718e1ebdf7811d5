[package]
name = "ac97_core"
version = "0.1.0"
edition = "2021"
publish = false

[dependencies]
bootloader = { version = "=0.9.35", features = ["map_physical_memory"] }
volatile = "=0.2.7"
