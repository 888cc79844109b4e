[package]
name = "uishell"
version = "0.1.0"
edition = "2021"
publish = false

[dependencies]
uuid = { version = "1", features = ["v4"] }
serde = { version = "1", features = ["derive"] }
egui = "*"
log = "0.4"
rust-i18n = "3"
