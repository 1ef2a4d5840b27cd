[package]
name = "rxbanish"
version = "0.1.0"
edition = "2021"
publish = false

[dependencies]
anyhow = "1"
clap = { version = "4", features = ["derive"] }
xcb = { version = "1", features = ["xfixes", "xinput"] }
