[package]
name = "qingjian_keys"
version = "0.1.0"
edition = "2021"
publish = false

[dependencies]
windows = { version = "=0.54.0", features = ["Win32_UI_TextServices"] }
