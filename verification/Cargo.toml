[package]
name = "remote_io"
version = "0.1.0"
edition = "2021"
publish = false

[dependencies]
isahc = "*"
smol = "*"
thiserror = "*"
