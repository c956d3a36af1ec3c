[package]
name = "rusync"
version = "0.1.0"
edition = "2021"
publish = false

[dependencies]
pathdiff = "*"
clap = { version = "*", features = ["derive"] }
colored = "*"
filetime = "*"
humansize = "*"
humantime = "*"
terminal_size = "*"
