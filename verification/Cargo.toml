[package]
name = "version-number"
version = "0.4.0"
edition = "2021"
publish = false

[dependencies]
semver = "1"
thiserror = "1"
