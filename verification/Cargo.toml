[package]
name = "actor_registry"
version = "0.1.0"
edition = "2021"
publish = false

[dependencies]
fnv = "1.0"
futures = "0.3"
once_cell = "1"
async-trait = "0.1"
