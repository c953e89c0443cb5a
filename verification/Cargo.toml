[package]
name = "alpha"
version = "0.1.0"
edition = "2021"
publish = false

[dependencies]
strsim = "*"
serde_json = "*"
serde = { version = "1", features = ["derive"] }
clap = { version = "4", features = ["derive"] }
colored = "*"
prettytable-rs = "*"
