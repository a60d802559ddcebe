[package]
name = "hollowknight_autosplit_wasm"
version = "0.1.0"
edition = "2021"
publish = false

[dependencies]
asr = "*"
bytemuck = { version = "*", features = ["derive"] }
roxmltree = "*"
