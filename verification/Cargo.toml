[package]
name = "egui_pie_menu"
version = "0.1.0"
edition = "2021"
publish = false

[dependencies]
egui = "*"
num-traits = "0.2"
