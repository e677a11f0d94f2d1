[package]
name = "pnr_core"
version = "0.1.0"
edition = "2021"
publish = false

[dependencies]
bitvec = "*"
hashers = "*"
ordered-float = "*"
serde = { version = "*", features = ["derive"] }
thiserror = "*"
