[package]
name = "select_widget"
version = "0.1.0"
edition = "2021"
publish = false

[dependencies]
kludgine = { version = "=0.11.0", default-features = false, features = ["app", "cosmic-text"] }
