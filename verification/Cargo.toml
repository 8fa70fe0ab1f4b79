[package]
name = "todos"
version = "0.1.0"
edition = "2021"
publish = false

[dependencies]
async-std = "1.0"
chrono = "0.4"
directories-next = "2.0"
iced = { version = "0.3", features = ["async-std", "image"] }
iced_native = "0.4"
open = "*"
serde = { version = "1.0", features = ["derive"] }
serde_json = "1.0"
wasm-timer = "0.2"
web-sys = { version = "0.3", features = ["Window", "Storage"] }
