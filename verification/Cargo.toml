[package]
name = "tdate"
version = "0.1.1"
edition = "2021"
publish = false

[dependencies]
astro = "2.0.0"
chrono = "0.4"
chrono-tz = "0.10"
clap = { version = "4", features = ["derive"] }
geocoding = "0.4"
tzf-rs = "*"
