[package]
name = "hue_control"
version = "0.1.0"
edition = "2021"
publish = false

[dependencies]
huelib = "*"
pastel = { version = "*", default-features = false }
structopt = "0.3"
xdg = "*"
