[package]
name = "yapbc"
version = "0.1.0"
edition = "2021"
publish = false

[dependencies]
prost = "*"
clap = { version = "4", features = ["derive"] }

[dev-dependencies]
prost-types = "*"
