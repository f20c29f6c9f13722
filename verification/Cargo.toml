[package]
name = "mon3tr_widget"
version = "0.1.0"
edition = "2021"
publish = false

[dependencies]
image = "*"
serde = { version = "*", features = ["derive"] }
serde_yaml = "*"
zip = "*"
