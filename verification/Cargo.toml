[package]
name = "climacell"
version = "0.1.0"
edition = "2021"
publish = false

[dependencies]
chrono = "*"
colored = "*"
prettytable-rs = "*"
reqwest = { version = "*", default-features = false, features = ["blocking"] }
structopt = "*"
