[package]
name = "iced_loading_indicator"
version = "0.1.0"
edition = "2021"
publish = false

[dependencies]
iced_style = "0.9"
iced_widget = { version = "0.1", features = ["canvas"] }
