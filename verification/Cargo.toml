[package]
name = "hackc_compile"
version = "0.1.0"
edition = "2021"
publish = false

[dependencies]
anyhow = "1"
bumpalo = "3"
serde = { version = "1", features = ["derive"] }
thiserror = "1"
