[package]
name = "frame_builder"
version = "0.1.0"
edition = "2021"
publish = false

[dependencies]
arsdk-rs = "=0.0.5"

[dev-dependencies]
scroll = "=0.10.2"
