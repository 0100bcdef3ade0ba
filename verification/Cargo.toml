[package]
name = "viv_script"
version = "0.1.0"
edition = "2021"
publish = false

[dependencies]
anyhow = "1"
clap = { version = "4", features = ["derive"] }
temp-file = "*"
thiserror = "1"
