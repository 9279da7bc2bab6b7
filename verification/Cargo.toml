[package]
name = "component_registry"
version = "0.1.0"
edition = "2021"
publish = false

[dependencies]
fnv = "=1.0.7"
legion = "=0.4.0"
