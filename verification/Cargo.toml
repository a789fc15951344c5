[package]
name = "icon_gen"
version = "0.1.0"
edition = "2021"
publish = false

[dependencies]
base64 = "=0.22.1"
image = "=0.25.10"
rust-genai = "=0.3.1"
tokio = { version = "=1.53.2", features = ["macros", "rt-multi-thread"] }
