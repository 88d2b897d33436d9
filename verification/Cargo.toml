[package]
name = "ui_core"
version = "0.1.0"
edition = "2021"
publish = false

[dependencies]
instant = "0.1"
fermi = "0.4"
dioxus = { version = "0.4", default-features = false, features = ["macro", "html", "hooks"] }
macroquad = "0.3"
