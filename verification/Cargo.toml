[package]
name = "linewrap"
version = "0.1.0"
edition = "2021"
publish = false

[dependencies]
thiserror = "1"

[dev-dependencies]
unicode-linebreak = "0.1"
