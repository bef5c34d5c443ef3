[package]
name = "af-iperps"
version = "0.1.0"
edition = "2021"
publish = false

[dependencies]
af-sui-types = "*"
af-move-type = "*"
af-sui-pkg-sdk = "*"
af-utilities = "*"
sui-framework-sdk = "*"
num_enum = "*"
strum = { version = "*", features = ["derive"] }
