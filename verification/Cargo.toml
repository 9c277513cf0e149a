[package]
name = "ruby_buildpack"
version = "0.1.0"
edition = "2021"
publish = false

[dependencies]
libcnb = "=0.30.4"
regex = "=1.13.1"
serde = { version = "=1.0.229", features = ["derive"] }
thiserror = "=1.0.69"
