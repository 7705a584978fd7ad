[package]
name = "clipipe"
version = "0.1.0"
edition = "2021"
publish = false

[dependencies]
serde_json = "1"
wl-clipboard-rs = "*"
x11-clipboard = "*"
clipboard-win = "*"
