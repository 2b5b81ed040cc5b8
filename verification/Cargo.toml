[package]
name = "daydream_input"
version = "0.1.0"
edition = "2021"
publish = false

[dependencies]
btleplug = "*"
enigo = "*"
futures-util = "*"
tokio = { version = "*", features = ["macros", "rt-multi-thread", "time"] }
uuid = "*"
