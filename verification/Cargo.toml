[package]
name = "gi"
version = "0.1.0"
edition = "2021"
publish = false

[dependencies]
chrono = "*"
clap = { version = "*", features = ["derive"] }
dialoguer = "*"
dirs = "*"
octocrab = "*"
tokio = { version = "*", features = ["macros", "rt-multi-thread"] }
which = "*"
