[package]
name = "resource_manager"
version = "0.1.0"
edition = "2021"
publish = false

[dependencies]
eyre = "0.6"
num_cpus = "1"
systemstat = "0.2"
thiserror = "1"
