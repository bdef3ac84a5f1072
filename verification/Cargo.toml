[package]
name = "cortex_settle"
version = "0.1.0"
edition = "2021"
publish = false

[dependencies]
color-eyre = "*"
const-hex = "*"
risc0-zkvm = { version = "*", default-features = false, features = ["client"] }
tokio = { version = "*", features = ["macros", "rt-multi-thread"] }
