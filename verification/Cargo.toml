[package]
name = "namahage"
version = "0.1.0"
edition = "2021"
publish = false

[dependencies]
bgzip = "0.2"
regex = "1"
rust-htslib = { version = "0.38", default-features = false }
serde = { version = "1", features = ["derive"] }
serde_yaml = "0.8"
structopt = "0.3"
strum = { version = "0.21", features = ["derive"] }
tera = "1"
thiserror = "1"
