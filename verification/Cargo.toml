[package]
name = "keydisp"
version = "0.1.0"
edition = "2021"
publish = false

[dependencies]
tungstenite = "*"
winapi = { version = "0.3", features = ["winuser", "windef", "minwindef"] }
