[package]
name = "gitpr"
version = "0.1.0"
edition = "2021"
publish = false

[dependencies]
anyhow = "1"
clap = { version = "4", features = ["derive", "env"] }
duct = "1"
log = "0.4"
termcolor = "1"
