[package]
name = "bevy_pbr_rust"
version = "0.1.0"
edition = "2021"
publish = false

[dependencies]
spirv-std = "0.8.0"
