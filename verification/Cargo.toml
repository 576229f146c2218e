[package]
name = "rsmedia"
version = "0.1.0"
edition = "2021"
publish = false

[dependencies]
colorutils-rs = "*"
colorous = "*"
palette = "*"
thiserror = "*"
rsmpeg = "*"
