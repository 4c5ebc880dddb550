[package]
name = "manifest_paths"
version = "0.1.0"
edition = "2021"
publish = false

[dependencies]
dirs = "=7.0.0"
platforms = "2.0.0"
