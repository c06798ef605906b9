[package]
name = "cancelcaster"
version = "0.1.0"
edition = "2021"
publish = false

[dependencies]
cpal = "0.15"
rustfft = "6"
tokio = { version = "1", features = ["macros", "rt-multi-thread", "time"] }
