[package]
name = "egui_files"
version = "0.1.0"
edition = "2021"
publish = false

[dependencies]
cocoon = "0.4.3"
dirs-next = "2.0.0"
tracing-subscriber = "*"
