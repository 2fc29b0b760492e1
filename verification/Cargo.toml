[package]
name = "procmon"
version = "0.1.0"
edition = "2021"
publish = false

[dependencies]
chrono = "*"
clap = { version = "*", features = ["derive"] }
console = "*"
ctrlc = "*"
dialoguer = { version = "*", features = ["fuzzy-select"] }
rgb = "*"
sysinfo = "*"
textplots = "*"
