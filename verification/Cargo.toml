[package]
name = "powalert"
version = "0.1.0"
edition = "2021"
publish = false

[dependencies]
battery = "*"
clap = "*"
humantime = "*"
log = "*"
notify-rust = "*"
simplelog = "*"
