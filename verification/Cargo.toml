[package]
name = "ghpr"
version = "0.1.0"
edition = "2021"
publish = false

[dependencies]
clap = "4"
config = { version = "*", default-features = false, features = ["ini"] }
git2 = { version = "*", default-features = false }
percent-encoding = "2"
webbrowser = "*"
