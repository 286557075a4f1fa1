[package]
name = "tsurch"
version = "0.1.0"
edition = "2021"
publish = false

[dependencies]
html2text = "=0.17.1"
reqwest = { version = "=0.13.5", default-features = false, features = ["blocking", "form"] }
clap = "=4.6.7"
serde = { version = "=1.0.229", features = ["derive"] }
