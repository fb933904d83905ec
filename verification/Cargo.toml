[package]
name = "concordance"
version = "0.1.0"
edition = "2021"
publish = false

[dependencies]
display-types = "=0.3.1"
bitflags = "=2.13.2"
serde = { version = "=1.0.229", features = ["derive"] }
thiserror = "=2.0.21"
