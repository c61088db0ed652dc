[package]
name = "shared_resource"
version = "0.1.0"
edition = "2021"
publish = false

[dependencies]
bincode = "1"
libc = "0.2"
serde = "1"
thiserror = "1"
