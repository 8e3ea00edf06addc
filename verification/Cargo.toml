[package]
name = "sequential-storage"
version = "0.1.0"
edition = "2021"
publish = false

[dependencies]
embedded-storage-async = "0.4.1"
